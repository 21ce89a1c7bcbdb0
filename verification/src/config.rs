//! Application configuration: where the assistant keeps its recordings,
//! scratch files, caches, logs, vault, settings file, voice sample and
//! database, and the backend it talks to.
//!
//! Paths are held as strings. Reading and writing the settings file, and
//! creating directories, are left to the program around the library.

use vstd::prelude::*;
use vstd::string::*;
use crate::paths::{
    is_below, join_path, lemma_below_trans, lemma_blocks_eq, lemma_join_below, lemma_lex_blocks,
    lemma_lex_irreflexive, lex_lt, spec_join,
};

verus! {

/// What a configuration says, as mathematical strings.
pub struct ConfigModel {
    pub recordings_dir: Seq<char>,
    pub temp_dir: Seq<char>,
    pub cache_dir: Seq<char>,
    pub logs_dir: Seq<char>,
    pub obsidian_vault: Seq<char>,
    pub config_path: Seq<char>,
    pub voice_reference: Seq<char>,
    pub db_path: Seq<char>,
    pub backend_url: Seq<char>,
}

/// The assistant's settings.
#[derive(Debug, Clone)]
pub struct AppConfig {
    pub recordings_dir: String,
    pub temp_dir: String,
    pub cache_dir: String,
    pub logs_dir: String,
    pub obsidian_vault: String,
    pub config_path: String,
    pub voice_reference: String,
    pub db_path: String,
    pub backend_url: String,
}

impl View for AppConfig {
    type V = ConfigModel;

    open spec fn view(&self) -> ConfigModel {
        ConfigModel {
            recordings_dir: self.recordings_dir@,
            temp_dir: self.temp_dir@,
            cache_dir: self.cache_dir@,
            logs_dir: self.logs_dir@,
            obsidian_vault: self.obsidian_vault@,
            config_path: self.config_path@,
            voice_reference: self.voice_reference@,
            db_path: self.db_path@,
            backend_url: self.backend_url@,
        }
    }
}

/// The directory, below the home directory, that holds everything the
/// assistant keeps for itself.
pub open spec fn data_dir(home: Seq<char>) -> Seq<char> {
    spec_join(home, ".meeting_assistant"@)
}

/// Where the settings file lives for a given home directory.
pub open spec fn settings_path(home: Seq<char>) -> Seq<char> {
    spec_join(data_dir(home), "config.yaml"@)
}

/// The configuration used when none has been saved, for a home directory.
pub open spec fn default_model(home: Seq<char>) -> ConfigModel {
    let base = data_dir(home);
    ConfigModel {
        recordings_dir: spec_join(base, "recordings"@),
        temp_dir: spec_join(base, "temp"@),
        cache_dir: spec_join(base, "cache"@),
        logs_dir: spec_join(base, "logs"@),
        obsidian_vault: spec_join(spec_join(home, "Obsidian"@), "Meetings"@),
        config_path: settings_path(home),
        voice_reference: spec_join(base, "voice_reference.wav"@),
        db_path: spec_join(base, "db.sqlite"@),
        backend_url: "http://127.0.0.1:8000"@,
    }
}

/// The name a recording started at the time written `stamp` gets.
pub open spec fn recording_file_name(stamp: Seq<char>) -> Seq<char> {
    "meeting_"@ + stamp + ".m4a"@
}

/// The format in which a recording's start time enters its file name.
pub open spec fn stamp_format() -> Seq<char> {
    "%Y-%m-%d_%H%M%S"@
}

/// What was found where the settings file should be.
pub enum StoredConfig {
    /// No file there.
    Missing,
    /// A file whose contents are not a configuration.
    Invalid,
    /// A file holding this configuration.
    Valid(AppConfig),
}

/// The configuration to use, and whether it must be written back.
pub struct LoadOutcome {
    pub config: AppConfig,
    pub save: bool,
}

/// The user's home directory, as a string.
///
/// Calls `dirs::home_dir`. Which directory comes back depends on the
/// environment (`$HOME`, the password database). On Unix targets, the ones
/// this program is built for, the source gives `None` rather than an empty
/// path, in both places it looks. A path that is not valid UTF-8 is converted
/// lossily, which keeps it non-empty.
#[verifier::external_body]
fn home_dir() -> (res: Option<String>)
    ensures
        res matches Some(h) ==> h@.len() > 0,
{
    match dirs::home_dir() {
        Some(p) => Some(p.to_string_lossy().into_owned()),
        None => None,
    }
}

/// A local date and time of day, to the second, as a calendar shows it.
#[derive(Debug, Clone, Copy)]
pub struct LocalTime {
    pub year: i32,
    pub month: u32,
    pub day: u32,
    pub hour: u32,
    pub minute: u32,
    pub second: u32,
}

/// Whether `y` is a leap year of the proleptic Gregorian calendar.
pub open spec fn is_leap_year(y: int) -> bool {
    y % 4 == 0 && (y % 100 != 0 || y % 400 == 0)
}

/// The number of days of month `m` of year `y`.
pub open spec fn days_in_month(y: int, m: int) -> int {
    if m == 2 {
        if is_leap_year(y) { 29 } else { 28 }
    } else if m == 4 || m == 6 || m == 9 || m == 11 {
        30
    } else {
        31
    }
}

/// Whether `t` names an existing calendar day, within the years chrono
/// represents, and a time of day without a leap second.
pub open spec fn valid_local_time(t: LocalTime) -> bool {
    &&& -262143 <= t.year <= 262142
    &&& 1 <= t.month <= 12
    &&& 1 <= t.day <= days_in_month(t.year as int, t.month as int)
    &&& t.hour < 24
    &&& t.minute < 60
    &&& t.second < 60
}

/// The decimal digit for the last place of `n`.
pub open spec fn digit(n: int) -> char {
    ((n % 10) + 48) as char
}

/// `n` written with two digits, zero-padded.
pub open spec fn two_digits(n: int) -> Seq<char> {
    seq![digit(n / 10), digit(n)]
}

/// `n` written with four digits, zero-padded.
pub open spec fn four_digits(n: int) -> Seq<char> {
    seq![digit(n / 1000), digit(n / 100), digit(n / 10), digit(n)]
}

/// How `stamp_format` writes `t` for a year from 0 to 9999:
/// `YYYY-MM-DD_HHMMSS`.
pub open spec fn stamp_text(t: LocalTime) -> Seq<char> {
    four_digits(t.year as int) + seq!['-'] + two_digits(t.month as int) + seq!['-']
        + two_digits(t.day as int) + seq!['_'] + two_digits(t.hour as int)
        + two_digits(t.minute as int) + two_digits(t.second as int)
}

/// `t1` is an earlier second than `t2`.
pub open spec fn time_before(t1: LocalTime, t2: LocalTime) -> bool {
    if t1.year != t2.year {
        t1.year < t2.year
    } else if t1.month != t2.month {
        t1.month < t2.month
    } else if t1.day != t2.day {
        t1.day < t2.day
    } else if t1.hour != t2.hour {
        t1.hour < t2.hour
    } else if t1.minute != t2.minute {
        t1.minute < t2.minute
    } else {
        t1.second < t2.second
    }
}

/// `t1` and `t2` name the same second.
pub open spec fn same_second(t1: LocalTime, t2: LocalTime) -> bool {
    &&& t1.year == t2.year
    &&& t1.month == t2.month
    &&& t1.day == t2.day
    &&& t1.hour == t2.hour
    &&& t1.minute == t2.minute
    &&& t1.second == t2.second
}

/// The path of the recording started at `t` in the directory `dir`.
pub open spec fn recording_path(dir: Seq<char>, t: LocalTime) -> Seq<char> {
    spec_join(dir, recording_file_name(stamp_text(t)))
}

proof fn lemma_digit(x: int, y: int)
    requires
        0 <= x,
        0 <= y,
    ensures
        digit(x) as int == x % 10 + 48,
        (digit(x) == digit(y)) == (x % 10 == y % 10),
{
    assert(((x % 10 + 48) as char) as int == x % 10 + 48);
    assert(((y % 10 + 48) as char) as int == y % 10 + 48);
}

proof fn lemma_two_digits(n1: int, n2: int)
    requires
        0 <= n1 < 100,
        0 <= n2 < 100,
    ensures
        two_digits(n1).len() == 2,
        (two_digits(n1) == two_digits(n2)) == (n1 == n2),
        lex_lt(two_digits(n1), two_digits(n2)) == (n1 < n2),
{
    reveal_with_fuel(lex_lt, 3);
    lemma_digit(n1 / 10, n2 / 10);
    lemma_digit(n1, n2);
    let a = two_digits(n1);
    let b = two_digits(n2);
    assert(a.drop_first() =~= seq![digit(n1)]);
    assert(b.drop_first() =~= seq![digit(n2)]);
    assert(a.drop_first().drop_first().len() == 0);
    if a == b {
        assert(a[0] == b[0] && a[1] == b[1]);
    }
    if n1 == n2 {
        assert(a =~= b);
    }
}

proof fn lemma_hundreds(n: int)
    requires
        0 <= n < 10000,
    ensures
        n == 100 * (n / 100) + n % 100,
        0 <= n / 100 < 100,
        0 <= n % 100 < 100,
        (n / 100) / 10 == n / 1000,
        ((n % 100) / 10) % 10 == (n / 10) % 10,
        (n % 100) % 10 == n % 10,
{
    assert(n == 100 * (n / 100) + n % 100 && 0 <= n % 100 < 100) by (nonlinear_arith)
        requires 0 <= n < 10000;
    assert((n / 100) / 10 == n / 1000) by (nonlinear_arith)
        requires 0 <= n < 10000;
    assert(((n % 100) / 10) % 10 == (n / 10) % 10) by (nonlinear_arith)
        requires 0 <= n < 10000;
    assert((n % 100) % 10 == n % 10) by (nonlinear_arith)
        requires 0 <= n < 10000;
}

proof fn lemma_four_as_two(n: int)
    requires
        0 <= n < 10000,
    ensures
        four_digits(n) == two_digits(n / 100) + two_digits(n % 100),
{
    lemma_hundreds(n);
    assert(four_digits(n) =~= two_digits(n / 100) + two_digits(n % 100));
}

proof fn lemma_four_digits(n1: int, n2: int)
    requires
        0 <= n1 < 10000,
        0 <= n2 < 10000,
    ensures
        four_digits(n1).len() == 4,
        (four_digits(n1) == four_digits(n2)) == (n1 == n2),
        lex_lt(four_digits(n1), four_digits(n2)) == (n1 < n2),
{
    lemma_four_as_two(n1);
    lemma_four_as_two(n2);
    lemma_hundreds(n1);
    lemma_hundreds(n2);
    let a1 = n1 / 100;
    let b1 = n1 % 100;
    let a2 = n2 / 100;
    let b2 = n2 % 100;
    lemma_two_digits(a1, a2);
    lemma_two_digits(b1, b2);
    lemma_blocks_eq(two_digits(a1), two_digits(a2), two_digits(b1), two_digits(b2));
    lemma_lex_blocks(two_digits(a1), two_digits(a2), two_digits(b1), two_digits(b2));
}

/// Within the years 0 to 9999, stamps of valid times are equal just for the
/// same second, and an earlier second gets a stamp that comes first.
proof fn lemma_stamp_order(t1: LocalTime, t2: LocalTime)
    requires
        valid_local_time(t1),
        valid_local_time(t2),
        0 <= t1.year <= 9999,
        0 <= t2.year <= 9999,
    ensures
        (stamp_text(t1) == stamp_text(t2)) == same_second(t1, t2),
        time_before(t1, t2) ==> lex_lt(stamp_text(t1), stamp_text(t2)),
{
    let dash = seq!['-'];
    let under = seq!['_'];
    let y1 = four_digits(t1.year as int);
    let y2 = four_digits(t2.year as int);
    let mo1 = two_digits(t1.month as int);
    let mo2 = two_digits(t2.month as int);
    let d1 = two_digits(t1.day as int);
    let d2 = two_digits(t2.day as int);
    let h1 = two_digits(t1.hour as int);
    let h2 = two_digits(t2.hour as int);
    let mi1 = two_digits(t1.minute as int);
    let mi2 = two_digits(t2.minute as int);
    let s1 = two_digits(t1.second as int);
    let s2 = two_digits(t2.second as int);
    lemma_four_digits(t1.year as int, t2.year as int);
    lemma_two_digits(t1.month as int, t2.month as int);
    lemma_two_digits(t1.day as int, t2.day as int);
    lemma_two_digits(t1.hour as int, t2.hour as int);
    lemma_two_digits(t1.minute as int, t2.minute as int);
    lemma_two_digits(t1.second as int, t2.second as int);
    lemma_lex_irreflexive(dash);
    lemma_lex_irreflexive(under);
    // Right-nested forms of the two stamps, block by block from the end.
    let r1_5 = mi1 + s1;
    let r2_5 = mi2 + s2;
    let r1_4 = h1 + r1_5;
    let r2_4 = h2 + r2_5;
    let r1_3 = under + r1_4;
    let r2_3 = under + r2_4;
    let r1_2 = d1 + r1_3;
    let r2_2 = d2 + r2_3;
    let r1_1 = dash + r1_2;
    let r2_1 = dash + r2_2;
    let r1_0 = mo1 + r1_1;
    let r2_0 = mo2 + r2_1;
    let r1 = y1 + (dash + r1_0);
    let r2 = y2 + (dash + r2_0);
    assert(stamp_text(t1) =~= r1);
    assert(stamp_text(t2) =~= r2);
    lemma_blocks_eq(mi1, mi2, s1, s2);
    lemma_lex_blocks(mi1, mi2, s1, s2);
    lemma_blocks_eq(h1, h2, r1_5, r2_5);
    lemma_lex_blocks(h1, h2, r1_5, r2_5);
    lemma_blocks_eq(under, under, r1_4, r2_4);
    lemma_lex_blocks(under, under, r1_4, r2_4);
    lemma_blocks_eq(d1, d2, r1_3, r2_3);
    lemma_lex_blocks(d1, d2, r1_3, r2_3);
    lemma_blocks_eq(dash, dash, r1_2, r2_2);
    lemma_lex_blocks(dash, dash, r1_2, r2_2);
    lemma_blocks_eq(mo1, mo2, r1_1, r2_1);
    lemma_lex_blocks(mo1, mo2, r1_1, r2_1);
    lemma_blocks_eq(dash, dash, r1_0, r2_0);
    lemma_lex_blocks(dash, dash, r1_0, r2_0);
    lemma_blocks_eq(y1, y2, dash + r1_0, dash + r2_0);
    lemma_lex_blocks(y1, y2, dash + r1_0, dash + r2_0);
}

/// Recording paths follow the times they are named after: within the years
/// 0 to 9999, a recording started at an earlier second gets a path that comes
/// first in dictionary (and byte) order, and two recordings get the same
/// path just when they start in the same second.
pub proof fn law_recording_paths_follow_time(dir: Seq<char>, t1: LocalTime, t2: LocalTime)
    requires
        valid_local_time(t1),
        valid_local_time(t2),
        0 <= t1.year <= 9999,
        0 <= t2.year <= 9999,
    ensures
        time_before(t1, t2) ==> lex_lt(recording_path(dir, t1), recording_path(dir, t2)),
        (recording_path(dir, t1) == recording_path(dir, t2)) == same_second(t1, t2),
{
    reveal_strlit("meeting_");
    reveal_strlit(".m4a");
    lemma_stamp_order(t1, t2);
    let st1 = stamp_text(t1);
    let st2 = stamp_text(t2);
    let pre = "meeting_"@;
    let ext = ".m4a"@;
    let n1 = recording_file_name(st1);
    let n2 = recording_file_name(st2);
    assert(n1[0] == 'm' && n2[0] == 'm');
    let sep = if dir.len() == 0 || dir.last() == '/' { dir } else { dir + seq!['/'] };
    assert(recording_path(dir, t1) =~= sep + (pre + (st1 + ext)));
    assert(recording_path(dir, t2) =~= sep + (pre + (st2 + ext)));
    assert(st1.len() == 17 && st2.len() == 17);
    lemma_lex_irreflexive(ext);
    lemma_lex_irreflexive(pre);
    lemma_lex_irreflexive(sep);
    lemma_blocks_eq(st1, st2, ext, ext);
    lemma_lex_blocks(st1, st2, ext, ext);
    lemma_blocks_eq(pre, pre, st1 + ext, st2 + ext);
    lemma_lex_blocks(pre, pre, st1 + ext, st2 + ext);
    lemma_blocks_eq(sep, sep, pre + (st1 + ext), pre + (st2 + ext));
    lemma_lex_blocks(sep, sep, pre + (st1 + ext), pre + (st2 + ext));
}

/// `t` written in the chrono format `fmt`, or `None` when `t` is not a date
/// and time chrono can represent.
///
/// Builds chrono's date-time from the fields with `NaiveDate::from_ymd_opt`
/// and `NaiveTime::from_hms_opt` (each `None` exactly when its fields do not
/// name an existing date, within chrono's years, or time of day) and renders
/// it with `format(fmt)`. chrono documents `%Y` as the year zero-padded to
/// four digits (with a sign outside 0 to 9999, which is not stated here), and
/// `%m`, `%d`, `%H`, `%M`, `%S` as zero-padded to two digits. Formats that
/// chrono cannot render (on which `to_string` panics) are left out: only the
/// one format the library uses is admitted.
#[verifier::external_body]
fn format_local_time(t: &LocalTime, fmt: &str) -> (res: Option<String>)
    requires
        fmt@ == stamp_format(),
    ensures
        res is Some <==> valid_local_time(*t),
        0 <= t.year <= 9999 ==> (res matches Some(s) ==> s@ == stamp_text(*t)),
{
    let date = chrono::NaiveDate::from_ymd_opt(t.year, t.month, t.day);
    let time = chrono::NaiveTime::from_hms_opt(t.hour, t.minute, t.second);
    match (date, time) {
        (Some(d), Some(tm)) => Some(d.and_time(tm).format(fmt).to_string()),
        _ => None,
    }
}

/// The settings file that loading looks for is the one that the default
/// configuration names, so a default configuration once saved is found again.
pub proof fn law_settings_path_is_default_config_path(home: Seq<char>)
    ensures
        settings_path(home) == default_model(home).config_path,
{
}

/// In the default layout, the data directory lies below the home directory,
/// every working directory and file of the assistant lies below the data
/// directory, and the vault lies below the home directory.
pub proof fn law_default_layout_below_home(home: Seq<char>)
    ensures
        is_below(data_dir(home), home),
        is_below(default_model(home).recordings_dir, data_dir(home)),
        is_below(default_model(home).temp_dir, data_dir(home)),
        is_below(default_model(home).cache_dir, data_dir(home)),
        is_below(default_model(home).logs_dir, data_dir(home)),
        is_below(default_model(home).config_path, data_dir(home)),
        is_below(default_model(home).voice_reference, data_dir(home)),
        is_below(default_model(home).db_path, data_dir(home)),
        is_below(default_model(home).obsidian_vault, home),
{
    reveal_strlit(".meeting_assistant");
    reveal_strlit("recordings");
    reveal_strlit("temp");
    reveal_strlit("cache");
    reveal_strlit("logs");
    reveal_strlit("config.yaml");
    reveal_strlit("voice_reference.wav");
    reveal_strlit("db.sqlite");
    reveal_strlit("Obsidian");
    reveal_strlit("Meetings");
    let base = data_dir(home);
    lemma_join_below(home, ".meeting_assistant"@);
    lemma_join_below(base, "recordings"@);
    lemma_join_below(base, "temp"@);
    lemma_join_below(base, "cache"@);
    lemma_join_below(base, "logs"@);
    lemma_join_below(base, "config.yaml"@);
    lemma_join_below(base, "voice_reference.wav"@);
    lemma_join_below(base, "db.sqlite"@);
    lemma_join_below(home, "Obsidian"@);
    lemma_join_below(spec_join(home, "Obsidian"@), "Meetings"@);
    lemma_below_trans(default_model(home).obsidian_vault, spec_join(home, "Obsidian"@), home);
}

/// A recording's path lies in the recordings directory, and ends in its file
/// name `meeting_<stamp>.m4a`, whatever the stamp.
pub proof fn law_recording_path_in_recordings_dir(recordings_dir: Seq<char>, stamp: Seq<char>)
    ensures
        is_below(spec_join(recordings_dir, recording_file_name(stamp)), recordings_dir),
        ({
            let p = spec_join(recordings_dir, recording_file_name(stamp));
            p.subrange(p.len() - recording_file_name(stamp).len(), p.len() as int)
                == recording_file_name(stamp)
        }),
{
    reveal_strlit("meeting_");
    reveal_strlit(".m4a");
    assert(recording_file_name(stamp)[0] == 'm');
    lemma_join_below(recordings_dir, recording_file_name(stamp));
}

/// The configuration that loading gives, and whether it must be written
/// back, for what was found at the settings path of `home`.
pub open spec fn resolved(home: Seq<char>, stored: StoredConfig) -> (ConfigModel, bool) {
    match stored {
        StoredConfig::Valid(c) => (c@, false),
        StoredConfig::Invalid => (default_model(home), false),
        StoredConfig::Missing => (default_model(home), true),
    }
}

/// Loading twice gives the same configuration, and the second load writes
/// nothing: whatever the first load found, if the file then holds the
/// configuration it gave (written back, or already there), the second load
/// gives that configuration and does not save.
pub proof fn law_load_is_stable(home: Seq<char>, first: StoredConfig, written: AppConfig)
    requires
        written@ == resolved(home, first).0,
    ensures
        resolved(home, StoredConfig::Valid(written)) == (resolved(home, first).0, false),
{
}

impl AppConfig {
    /// The default configuration for the home directory `home`.
    pub fn from_home(home: &str) -> (res: AppConfig)
        ensures
            res@ == default_model(home@),
    {
        let base = join_path(home, ".meeting_assistant");
        let vault_parent = join_path(home, "Obsidian");
        AppConfig {
            recordings_dir: join_path(base.as_str(), "recordings"),
            temp_dir: join_path(base.as_str(), "temp"),
            cache_dir: join_path(base.as_str(), "cache"),
            logs_dir: join_path(base.as_str(), "logs"),
            obsidian_vault: join_path(vault_parent.as_str(), "Meetings"),
            config_path: join_path(base.as_str(), "config.yaml"),
            voice_reference: join_path(base.as_str(), "voice_reference.wav"),
            db_path: join_path(base.as_str(), "db.sqlite"),
            backend_url: String::from_str("http://127.0.0.1:8000"),
        }
    }

    /// The default configuration for the current user, or `None` when the
    /// home directory cannot be determined.
    pub fn try_default() -> (res: Option<AppConfig>)
        ensures
            res matches Some(c) ==> exists|home: Seq<char>|
                home.len() > 0 && #[trigger] default_model(home) == c@,
    {
        match home_dir() {
            Some(home) => Some(AppConfig::from_home(home.as_str())),
            None => None,
        }
    }

    /// Where the settings file is looked for, for the home directory `home`.
    pub fn config_path_in(home: &str) -> (res: String)
        ensures
            res@ == settings_path(home@),
    {
        let base = join_path(home, ".meeting_assistant");
        join_path(base.as_str(), "config.yaml")
    }

    /// Decides what loading the settings gives, from what was found at the
    /// settings path of `home`: a missing file gives the default, which must
    /// then be saved; a file that does not parse gives the default, unsaved;
    /// a valid file gives its configuration.
    pub fn resolve_load(home: &str, stored: StoredConfig) -> (res: LoadOutcome)
        ensures
            (res.config@, res.save) == resolved(home@, stored),
            stored matches StoredConfig::Valid(c) ==> res.config@ == c@ && !res.save,
            stored is Invalid ==> res.config@ == default_model(home@) && !res.save,
            stored is Missing ==> res.config@ == default_model(home@) && res.save,
    {
        match stored {
            StoredConfig::Valid(c) => LoadOutcome { config: c, save: false },
            StoredConfig::Invalid => LoadOutcome { config: AppConfig::from_home(home), save: false },
            StoredConfig::Missing => LoadOutcome { config: AppConfig::from_home(home), save: true },
        }
    }

    /// The working directories that must exist before recording, in the
    /// order they are created.
    pub fn required_dirs(&self) -> (res: Vec<String>)
        ensures
            res@.len() == 4,
            res@[0]@ == self.recordings_dir@,
            res@[1]@ == self.temp_dir@,
            res@[2]@ == self.cache_dir@,
            res@[3]@ == self.logs_dir@,
    {
        let mut res: Vec<String> = Vec::new();
        res.push(self.recordings_dir.clone());
        res.push(self.temp_dir.clone());
        res.push(self.cache_dir.clone());
        res.push(self.logs_dir.clone());
        res
    }

    /// The path of a recording whose start time is written `stamp`.
    pub fn recording_path_at(&self, stamp: &str) -> (res: String)
        ensures
            res@ == spec_join(self.recordings_dir@, recording_file_name(stamp@)),
    {
        let mut name = String::from_str("meeting_");
        name.append(stamp);
        name.append(".m4a");
        join_path(self.recordings_dir.as_str(), name.as_str())
    }

    /// The path of a new recording started at the local time `now`, or
    /// `None` when `now` is not a date and time that can be written.
    pub fn get_recording_path(&self, now: &LocalTime) -> (res: Option<String>)
        ensures
            res is Some <==> valid_local_time(*now),
            res matches Some(p) ==> exists|stamp: Seq<char>|
                p@ == spec_join(self.recordings_dir@, #[trigger] recording_file_name(stamp)),
            0 <= now.year <= 9999 ==> (res matches Some(p) ==> p@ == spec_join(
                self.recordings_dir@,
                recording_file_name(stamp_text(*now)),
            )),
    {
        match format_local_time(now, "%Y-%m-%d_%H%M%S") {
            Some(stamp) => Some(self.recording_path_at(stamp.as_str())),
            None => None,
        }
    }
}

} // verus!
