//! Configuration of the supervisor, and the backup names derived from it.
//!
//! The configuration file is read and decoded by the unverified shell; the
//! logic that assembles the decoded entries into a configuration, decides
//! completeness, and derives the daily backup file names lives here.  The
//! backup name for rotation index `i` is
//! `<dateFormattedTemplate>_<i>.tar.gz`, placed in the backups directory;
//! only the strftime expansion of the template is delegated to an outside
//! date library.

use vstd::prelude::*;

use core::fmt::Write;

use crate::error::GenericResult;
use crate::error::explained;

verus! {

// ------------------------------------------------------------------
// Decimal digits
// ------------------------------------------------------------------
/// The character for one decimal digit value.
pub open spec fn digit_char(d: nat) -> char {
    if d == 0 {
        '0'
    } else if d == 1 {
        '1'
    } else if d == 2 {
        '2'
    } else if d == 3 {
        '3'
    } else if d == 4 {
        '4'
    } else if d == 5 {
        '5'
    } else if d == 6 {
        '6'
    } else if d == 7 {
        '7'
    } else if d == 8 {
        '8'
    } else {
        '9'
    }
}

/// The usual decimal rendering of a number: no sign, no leading zero except
/// for the number zero itself.
pub open spec fn dec_digits(n: nat) -> Seq<char>
    decreases n,
{
    if n < 10 {
        seq![digit_char(n)]
    } else {
        dec_digits(n / 10).push(digit_char(n % 10))
    }
}

/// The decimal rendering of a signed number: a minus sign for a negative
/// value, then the digits of its magnitude.
pub open spec fn dec_digits_signed(n: int) -> Seq<char> {
    if n >= 0 {
        dec_digits(n as nat)
    } else {
        seq!['-'] + dec_digits((0 - n) as nat)
    }
}

/// Renders a signed number in decimal.
pub fn decimal_string_i64(n: i64) -> (r: String)
    ensures
        r@ == dec_digits_signed(n as int),
{
    if n >= 0 {
        decimal_string(n as u64)
    } else {
        let mag: u64 = if n == i64::MIN {
            9223372036854775808u64
        } else {
            (-n) as u64
        };
        let mut s = String::from_str("-");
        let d = decimal_string(mag);
        s.append(d.as_str());
        proof {
            reveal_strlit("-");
            assert("-"@ =~= seq!['-']);
        }
        s
    }
}

/// The numeric value of one decimal digit character; 10 marks a character
/// that is no digit.
pub open spec fn digit_value(c: char) -> nat {
    if c == '0' {
        0
    } else if c == '1' {
        1
    } else if c == '2' {
        2
    } else if c == '3' {
        3
    } else if c == '4' {
        4
    } else if c == '5' {
        5
    } else if c == '6' {
        6
    } else if c == '7' {
        7
    } else if c == '8' {
        8
    } else if c == '9' {
        9
    } else {
        10
    }
}

pub open spec fn is_digit(c: char) -> bool {
    digit_value(c) <= 9
}

pub open spec fn all_digits(s: Seq<char>) -> bool {
    forall|i: int| 0 <= i < s.len() ==> is_digit(#[trigger] s[i])
}

/// The value of a run of decimal digit characters, most significant first.
pub open spec fn digits_value(s: Seq<char>) -> nat
    decreases s.len(),
{
    if s.len() == 0 {
        0
    } else {
        digits_value(s.drop_last()) * 10 + digit_value(s.last())
    }
}

/// One digit as text.
pub fn digit_str(d: u8) -> (r: &'static str)
    requires
        d <= 9,
    ensures
        r@ == seq![digit_char(d as nat)],
{
    proof {
        reveal_strlit("0");
        reveal_strlit("1");
        reveal_strlit("2");
        reveal_strlit("3");
        reveal_strlit("4");
        reveal_strlit("5");
        reveal_strlit("6");
        reveal_strlit("7");
        reveal_strlit("8");
        reveal_strlit("9");
    }
    match d {
        0 => "0",
        1 => "1",
        2 => "2",
        3 => "3",
        4 => "4",
        5 => "5",
        6 => "6",
        7 => "7",
        8 => "8",
        _ => "9",
    }
}

/// Renders a number in decimal.
pub fn decimal_string(n: u64) -> (r: String)
    ensures
        r@ == dec_digits(n as nat),
    decreases n,
{
    if n < 10 {
        String::from_str(digit_str(n as u8))
    } else {
        let mut s = decimal_string(n / 10);
        s.append(digit_str((n % 10) as u8));
        proof {
            assert(dec_digits((n / 10) as nat) + seq![digit_char((n % 10) as nat)] =~= dec_digits(
                (n / 10) as nat,
            ).push(digit_char((n % 10) as nat)));
        }
        s
    }
}

// ------------------------------------------------------------------
// Parsing signed decimal numbers
// ------------------------------------------------------------------
/// What parsing a signed decimal means: an optional sign, then at least one
/// digit and nothing else, with the value in the range of `i64`.
pub open spec fn parsed_i64(s: Seq<char>) -> Option<i64> {
    if s.len() == 0 {
        None
    } else {
        let neg = s[0] == '-';
        let has_sign = s[0] == '-' || s[0] == '+';
        let ds = if has_sign {
            s.drop_first()
        } else {
            s
        };
        if ds.len() == 0 || !all_digits(ds) {
            None
        } else if neg {
            if digits_value(ds) > 0x8000_0000_0000_0000 {
                None
            } else {
                Some((0 - digits_value(ds) as int) as i64)
            }
        } else {
            if digits_value(ds) > 0x7fff_ffff_ffff_ffff {
                None
            } else {
                Some(digits_value(ds) as i64)
            }
        }
    }
}

/// A prefix of a digit run is never worth more than the whole run.
proof fn lemma_digits_value_take_le(s: Seq<char>, k: int)
    requires
        0 <= k <= s.len(),
    ensures
        digits_value(s.take(k)) <= digits_value(s),
    decreases s.len() - k,
{
    if k == s.len() {
        assert(s.take(k) =~= s);
    } else {
        lemma_digits_value_take_le(s.drop_last(), k);
        assert(s.drop_last().take(k) =~= s.take(k));
    }
}

/// The numeric value of one decimal digit character, if it is one.
pub fn digit_val(c: char) -> (r: Option<u8>)
    ensures
        r matches Some(d) ==> is_digit(c) && d == digit_value(c),
        r is None ==> !is_digit(c),
{
    match c {
        '0' => Some(0),
        '1' => Some(1),
        '2' => Some(2),
        '3' => Some(3),
        '4' => Some(4),
        '5' => Some(5),
        '6' => Some(6),
        '7' => Some(7),
        '8' => Some(8),
        '9' => Some(9),
        _ => None,
    }
}

/// Parses a signed decimal number, exactly as `parsed_i64` describes:
/// `None` on an empty text, a stray character, a bare sign or a value
/// outside the range of `i64`.
pub fn parse_i64(s: &str) -> (r: Option<i64>)
    ensures
        r == parsed_i64(s@),
{
    let len = s.unicode_len();
    if len == 0 {
        return None;
    }
    let first = s.get_char(0);
    let neg = first == '-';
    let has_sign = first == '-' || first == '+';
    let start: usize = if has_sign {
        1
    } else {
        0
    };
    if start == len {
        return None;
    }
    let ghost ds = if has_sign {
        s@.drop_first()
    } else {
        s@
    };
    proof {
        assert(ds =~= s@.subrange(start as int, len as int));
    }
    let mut acc: u64 = 0;
    let mut i: usize = start;
    while i < len
        invariant
            len == s@.len(),
            start <= i <= len,
            start < len,
            neg == (s@[0] == '-'),
            (s@[0] == '-' || s@[0] == '+') ==> start == 1,
            !(s@[0] == '-' || s@[0] == '+') ==> start == 0,
            ds == s@.subrange(start as int, len as int),
            all_digits(s@.subrange(start as int, i as int)),
            acc as nat == digits_value(s@.subrange(start as int, i as int)),
        decreases len - i,
    {
        let c = s.get_char(i);
        let ghost prefix = s@.subrange(start as int, i as int);
        let ghost prefix1 = s@.subrange(start as int, i as int + 1);
        proof {
            assert(prefix1.drop_last() =~= prefix);
            assert(prefix1 =~= ds.take(i - start + 1));
            assert(s@.subrange(0, s@.len() as int) =~= s@);
        }
        match digit_val(c) {
            None => {
                proof {
                    assert(ds[i - start] == c);
                    assert(!all_digits(ds));
                }
                return None;
            },
            Some(dv) => {
                proof {
                    lemma_digits_value_take_le(ds, i - start + 1);
                    assert(prefix1.last() == c);
                    assert(digits_value(prefix1) == digits_value(prefix) * 10 + digit_value(c));
                }
                let shifted = match acc.checked_mul(10) {
                    Some(a) => a,
                    None => {
                        proof {
                            assert(digits_value(ds) >= digits_value(prefix1));
                            assert(digits_value(ds) > 0x8000_0000_0000_0000);
                        }
                        return None;
                    },
                };
                acc = match shifted.checked_add(dv as u64) {
                    Some(a) => a,
                    None => {
                        proof {
                            assert(digits_value(ds) >= digits_value(prefix1));
                            assert(digits_value(ds) > 0x8000_0000_0000_0000);
                        }
                        return None;
                    },
                };
            },
        }
        i = i + 1;
    }
    proof {
        assert(s@.subrange(start as int, len as int) =~= ds);
    }
    if neg {
        if acc > 0x8000_0000_0000_0000u64 {
            None
        } else if acc == 0x8000_0000_0000_0000u64 {
            Some(i64::MIN)
        } else {
            Some(-(acc as i64))
        }
    } else {
        if acc > 0x7fff_ffff_ffff_ffffu64 {
            None
        } else {
            Some(acc as i64)
        }
    }
}

// ------------------------------------------------------------------
// Dates and the strftime template
// ------------------------------------------------------------------
/// A civil date as plain values, as the backup-name template consumes it.
#[derive(Clone, Copy, Debug, PartialEq, Eq, Structural)]
pub struct Date {
    pub year: i32,
    pub month: u8,
    pub day: u8,
}

impl Date {
    /// The ranges a civil date keeps to; finer validity (month lengths,
    /// leap years) is left to the date library, which refuses an invalid
    /// combination.
    pub open spec fn wf(&self) -> bool {
        1 <= self.month <= 12 && 1 <= self.day <= 31
    }
}

/// The strftime expansion of a template for a given civil date — a function
/// of the template and the date alone — or `None` when the date is invalid
/// or the template is no valid format string.
pub uninterp spec fn formatted_date(
    template: Seq<char>,
    year: int,
    month: int,
    day: int,
) -> Option<Seq<char>>;

/// The character content of an optional text.
pub open spec fn opt_view(o: Option<String>) -> Option<Seq<char>> {
    match o {
        Some(s) => Some(s@),
        None => None,
    }
}

/// Relies on chrono's `NaiveDate::from_ymd_opt` and `NaiveDate::format`:
/// strftime expansion of the template for the given date, `None` when the
/// date is invalid or the template is not a valid format string.
#[verifier::external_body]
pub fn format_with_date(template: &str, date: &Date) -> (r: Option<String>)
    ensures
        opt_view(r) == formatted_date(
            template@,
            date.year as int,
            date.month as int,
            date.day as int,
        ),
{
    let d = match chrono::NaiveDate::from_ymd_opt(date.year, date.month as u32, date.day as u32) {
        Some(d) => d,
        None => return None,
    };
    let mut out = String::new();
    match write!(out, "{}", d.format(template)) {
        Ok(()) => Some(out),
        Err(_) => None,
    }
}

/// Relies on chrono's `Local::now` and the `Datelike` accessors: the current
/// local civil date, whose month is in 1..=12 and day in 1..=31.
#[verifier::external_body]
pub fn today() -> (d: Date)
    ensures
        d.wf(),
{
    let now = chrono::Local::now().date_naive();
    Date {
        year: chrono::Datelike::year(&now),
        month: chrono::Datelike::month(&now) as u8,
        day: chrono::Datelike::day(&now) as u8,
    }
}

// ------------------------------------------------------------------
// Backup file names
// ------------------------------------------------------------------
/// The backup file name for one expanded template and one rotation index.
pub open spec fn spec_backup_file_name(formatted: Seq<char>, index: nat) -> Seq<char> {
    formatted + "_"@ + dec_digits(index) + ".tar.gz"@
}

/// Appends the rotation index and the archive suffix to the expanded
/// template.
pub fn backup_file_name(formatted: &str, index: u8) -> (r: String)
    ensures
        r@ == spec_backup_file_name(formatted@, index as nat),
{
    let mut s = String::from_str(formatted);
    s.append("_");
    let digits = decimal_string(index as u64);
    s.append(digits.as_str());
    s.append(".tar.gz");
    s
}

/// A file name placed in a directory: joined with a path separator, unless
/// the directory already ends in one.
pub open spec fn spec_join_path(dir: Seq<char>, name: Seq<char>) -> Seq<char> {
    if dir.len() > 0 && dir.last() == '/' {
        dir + name
    } else {
        dir + "/"@ + name
    }
}

pub fn join_path(dir: &str, name: &str) -> (r: String)
    ensures
        r@ == spec_join_path(dir@, name@),
{
    proof {
        reveal_strlit("/");
    }
    let len = dir.unicode_len();
    let mut s = String::from_str(dir);
    if len == 0 || dir.get_char(len - 1) != '/' {
        s.append("/");
    }
    s.append(name);
    s
}

// ------------------------------------------------------------------
// The configuration itself
// ------------------------------------------------------------------
/// A complete configuration, as the supervisor consumes it.  All values
/// arrive pre-validated from the configuration file; the supervisor treats
/// them as opaque.
#[derive(Clone, Debug)]
pub struct Config {
    pub server_directory: String,
    pub executable_name: String,
    pub args: Vec<String>,
    pub backups_directory: String,
    pub backups_target: String,
    pub backups_file_format: String,
    pub telegram_api_token: String,
    pub telegram_user_id: i64,
}

/// The character-level content of a configuration.
pub struct ConfigView {
    pub server_directory: Seq<char>,
    pub executable_name: Seq<char>,
    pub args: Seq<Seq<char>>,
    pub backups_directory: Seq<char>,
    pub backups_target: Seq<char>,
    pub backups_file_format: Seq<char>,
    pub telegram_api_token: Seq<char>,
    pub telegram_user_id: i64,
}

impl View for Config {
    type V = ConfigView;

    open spec fn view(&self) -> ConfigView {
        ConfigView {
            server_directory: self.server_directory@,
            executable_name: self.executable_name@,
            args: self.args.deep_view(),
            backups_directory: self.backups_directory@,
            backups_target: self.backups_target@,
            backups_file_format: self.backups_file_format@,
            telegram_api_token: self.telegram_api_token@,
            telegram_user_id: self.telegram_user_id,
        }
    }
}

/// A configuration while it is being gathered from the file: every scalar
/// field is still optional.
#[derive(Clone, Debug)]
pub struct CheckedConfig {
    pub server_directory: Option<String>,
    pub executable_name: Option<String>,
    pub args: Vec<String>,
    pub backups_directory: Option<String>,
    pub backups_target: Option<String>,
    pub backups_file_format: Option<String>,
    pub telegram_api_token: Option<String>,
    pub telegram_user_id: Option<i64>,
}

/// The character-level content of a configuration under construction.
pub struct CheckedConfigView {
    pub server_directory: Option<Seq<char>>,
    pub executable_name: Option<Seq<char>>,
    pub args: Seq<Seq<char>>,
    pub backups_directory: Option<Seq<char>>,
    pub backups_target: Option<Seq<char>>,
    pub backups_file_format: Option<Seq<char>>,
    pub telegram_api_token: Option<Seq<char>>,
    pub telegram_user_id: Option<i64>,
}

impl View for CheckedConfig {
    type V = CheckedConfigView;

    open spec fn view(&self) -> CheckedConfigView {
        CheckedConfigView {
            server_directory: opt_view(self.server_directory),
            executable_name: opt_view(self.executable_name),
            args: self.args.deep_view(),
            backups_directory: opt_view(self.backups_directory),
            backups_target: opt_view(self.backups_target),
            backups_file_format: opt_view(self.backups_file_format),
            telegram_api_token: opt_view(self.telegram_api_token),
            telegram_user_id: self.telegram_user_id,
        }
    }
}

/// What one decoded `(section, key, value)` entry of the configuration file
/// contributes: the recognized keys of the three sections set their field
/// (`arg` appends), `user_id` must parse as a signed decimal to count, and
/// everything unrecognized is ignored.
pub open spec fn spec_apply_entry(
    v: CheckedConfigView,
    section: Seq<char>,
    key: Seq<char>,
    value: Seq<char>,
) -> CheckedConfigView {
    if section == "General"@ {
        if key == "server_directory"@ {
            CheckedConfigView { server_directory: Some(value), ..v }
        } else if key == "executable_name"@ {
            CheckedConfigView { executable_name: Some(value), ..v }
        } else if key == "arg"@ {
            CheckedConfigView { args: v.args.push(value), ..v }
        } else {
            v
        }
    } else if section == "Backups"@ {
        if key == "backups_directory"@ {
            CheckedConfigView { backups_directory: Some(value), ..v }
        } else if key == "backups_target"@ {
            CheckedConfigView { backups_target: Some(value), ..v }
        } else if key == "backups_file_format"@ {
            CheckedConfigView { backups_file_format: Some(value), ..v }
        } else {
            v
        }
    } else if section == "Telegram"@ {
        if key == "api_token"@ {
            CheckedConfigView { telegram_api_token: Some(value), ..v }
        } else if key == "user_id"@ {
            match parsed_i64(value) {
                Some(n) => CheckedConfigView { telegram_user_id: Some(n), ..v },
                None => v,
            }
        } else {
            v
        }
    } else {
        v
    }
}

impl CheckedConfig {
    /// The gathering starts with nothing known.
    pub fn new_empty() -> (r: CheckedConfig)
        ensures
            r@.server_directory is None,
            r@.executable_name is None,
            r@.args == Seq::<Seq<char>>::empty(),
            r@.backups_directory is None,
            r@.backups_target is None,
            r@.backups_file_format is None,
            r@.telegram_api_token is None,
            r@.telegram_user_id is None,
    {
        let r = CheckedConfig {
            server_directory: None,
            executable_name: None,
            args: Vec::new(),
            backups_directory: None,
            backups_target: None,
            backups_file_format: None,
            telegram_api_token: None,
            telegram_user_id: None,
        };
        proof {
            assert(r@.args =~= Seq::<Seq<char>>::empty());
        }
        r
    }

    /// Records one decoded entry of the configuration file.
    pub fn apply_entry(&mut self, section: &str, key: &str, value: &str)
        ensures
            final(self)@ == spec_apply_entry(old(self)@, section@, key@, value@),
    {
        let sec = String::from_str(section);
        let k = String::from_str(key);
        if sec == String::from_str("General") {
            if k == String::from_str("server_directory") {
                self.server_directory = Some(String::from_str(value));
            } else if k == String::from_str("executable_name") {
                self.executable_name = Some(String::from_str(value));
            } else if k == String::from_str("arg") {
                self.args.push(String::from_str(value));
                proof {
                    assert(self@.args =~= old(self)@.args.push(value@));
                }
            }
        } else if sec == String::from_str("Backups") {
            if k == String::from_str("backups_directory") {
                self.backups_directory = Some(String::from_str(value));
            } else if k == String::from_str("backups_target") {
                self.backups_target = Some(String::from_str(value));
            } else if k == String::from_str("backups_file_format") {
                self.backups_file_format = Some(String::from_str(value));
            }
        } else if sec == String::from_str("Telegram") {
            if k == String::from_str("api_token") {
                self.telegram_api_token = Some(String::from_str(value));
            } else if k == String::from_str("user_id") {
                match parse_i64(value) {
                    Some(n) => {
                        self.telegram_user_id = Some(n);
                    },
                    None => {},
                }
            }
        }
    }

    /// Whether the gathering is still incomplete: true exactly when some
    /// required field has not been seen.
    pub fn check(&self) -> (r: bool)
        ensures
            r == (self@.server_directory is None || self@.executable_name is None
                || self@.backups_directory is None || self@.backups_target is None
                || self@.backups_file_format is None || self@.telegram_api_token is None
                || self@.telegram_user_id is None),
    {
        self.server_directory.is_none() || self.executable_name.is_none()
            || self.backups_directory.is_none() || self.backups_target.is_none()
            || self.backups_file_format.is_none() || self.telegram_api_token.is_none()
            || self.telegram_user_id.is_none()
    }

    /// Seals a complete gathering into a configuration; callers check
    /// completeness first.
    pub fn to_config(self) -> (r: Config)
        requires
            self@.server_directory is Some,
            self@.executable_name is Some,
            self@.backups_directory is Some,
            self@.backups_target is Some,
            self@.backups_file_format is Some,
            self@.telegram_api_token is Some,
            self@.telegram_user_id is Some,
        ensures
            Some(r@.server_directory) == self@.server_directory,
            Some(r@.executable_name) == self@.executable_name,
            r@.args == self@.args,
            Some(r@.backups_directory) == self@.backups_directory,
            Some(r@.backups_target) == self@.backups_target,
            Some(r@.backups_file_format) == self@.backups_file_format,
            Some(r@.telegram_api_token) == self@.telegram_api_token,
            Some(r@.telegram_user_id) == self@.telegram_user_id,
    {
        Config {
            server_directory: self.server_directory.unwrap(),
            executable_name: self.executable_name.unwrap(),
            args: self.args,
            backups_directory: self.backups_directory.unwrap(),
            backups_target: self.backups_target.unwrap(),
            backups_file_format: self.backups_file_format.unwrap(),
            telegram_api_token: self.telegram_api_token.unwrap(),
            telegram_user_id: self.telegram_user_id.unwrap(),
        }
    }

    /// Seals the gathering, or explains that the file was incomplete.
    pub fn into_config(self) -> (r: GenericResult<Config>)
        ensures
            r is Ok <==> !(self@.server_directory is None || self@.executable_name is None
                || self@.backups_directory is None || self@.backups_target is None
                || self@.backups_file_format is None || self@.telegram_api_token is None
                || self@.telegram_user_id is None),
            r matches Ok(c) ==> Some(c@.server_directory) == self@.server_directory
                && Some(c@.executable_name) == self@.executable_name && c@.args == self@.args
                && Some(c@.backups_directory) == self@.backups_directory && Some(
                c@.backups_target,
            ) == self@.backups_target && Some(c@.backups_file_format)
                == self@.backups_file_format && Some(c@.telegram_api_token)
                == self@.telegram_api_token && Some(c@.telegram_user_id)
                == self@.telegram_user_id,
    {
        if self.check() {
            Err(explained("the configuration file leaves a required field unset"))
        } else {
            Ok(self.to_config())
        }
    }
}

impl Config {
    /// The backup path for a known date: the template expanded for that
    /// date, the rotation index and the archive suffix appended, placed in
    /// the backups directory.  `None` exactly when the template refuses to
    /// expand for that date.
    pub fn generate_backup_name_on(&self, date: &Date, index: u8) -> (r: Option<String>)
        requires
            date.wf(),
        ensures
            opt_view(r) == match formatted_date(
                self@.backups_file_format,
                date.year as int,
                date.month as int,
                date.day as int,
            ) {
                Some(f) => Some(
                    spec_join_path(
                        self@.backups_directory,
                        spec_backup_file_name(f, index as nat),
                    ),
                ),
                None => None::<Seq<char>>,
            },
    {
        match format_with_date(self.backups_file_format.as_str(), date) {
            None => None,
            Some(f) => {
                let name = backup_file_name(f.as_str(), index);
                Some(join_path(self.backups_directory.as_str(), name.as_str()))
            },
        }
    }

    /// The backup path for today and the given rotation index, with the
    /// date supplied by the system clock; `None` exactly when the template
    /// refuses to expand.
    pub fn generate_backup_name(&self, index: u8) -> (r: Option<String>)
        ensures
            r matches Some(p) ==> exists|y: int, mo: int, d: int|
                (#[trigger] formatted_date(self@.backups_file_format, y, mo, d)) matches Some(f)
                    && p@ == spec_join_path(
                    self@.backups_directory,
                    spec_backup_file_name(f, index as nat),
                ),
    {
        let date = today();
        self.generate_backup_name_on(&date, index)
    }
}

} // verus!
