//! Log lines and log-file rotation.
use vstd::prelude::*;

verus! {

/// Bytes in one mebibyte: the unit of the configured rotation size.
pub const MIB: u64 = 1048576;

/// Width of the level column in a log line.
pub const LEVEL_WIDTH: usize = 5;

/// The severity of a log line.
#[derive(Clone, Copy, Debug)]
pub enum LogLevel {
    Info,
    Warn,
    Error,
}

/// The label a level is printed with.
pub open spec fn spec_level_label(level: LogLevel) -> Seq<char> {
    match level {
        LogLevel::Info => "INFO"@,
        LogLevel::Warn => "WARN"@,
        LogLevel::Error => "ERROR"@,
    }
}

impl LogLevel {
    /// The label this level is printed with.
    pub fn label(&self) -> (label: &'static str)
        ensures
            label@ == spec_level_label(*self),
    {
        match self {
            LogLevel::Info => "INFO",
            LogLevel::Warn => "WARN",
            LogLevel::Error => "ERROR",
        }
    }
}

/// The character of a decimal digit.
pub open spec fn digit_char(d: nat) -> char {
    (d + 48) as char
}

/// Decimal notation of `n`, without sign or leading zeros.
pub open spec fn decimal(n: nat) -> Seq<char>
    decreases n,
{
    if n < 10 {
        seq![digit_char(n)]
    } else {
        decimal(n / 10).push(digit_char(n % 10))
    }
}

/// `label` padded on the right with spaces to at least `LEVEL_WIDTH`
/// characters.
pub open spec fn padded_label(label: Seq<char>) -> Seq<char> {
    if label.len() < LEVEL_WIDTH {
        label + Seq::new((LEVEL_WIDTH - label.len()) as nat, |i: int| ' ')
    } else {
        label
    }
}

/// The text of a log line: `[<seconds>] <level padded to 5> <message>` and
/// a newline.
pub open spec fn spec_log_line(seconds: nat, level: Seq<char>, message: Seq<char>) -> Seq<char> {
    "["@ + decimal(seconds) + "] "@ + padded_label(level) + " "@ + message + "\n"@
}

/// The number that a string of decimal digits denotes.
pub open spec fn decimal_value(digits: Seq<char>) -> int
    decreases digits.len(),
{
    if digits.len() == 0 {
        0
    } else {
        decimal_value(digits.drop_last()) * 10 + (digits.last() as int - 48)
    }
}

/// Log-line law: the time stamp of a line reads back as the time that was
/// written, and is never empty.
pub proof fn lemma_decimal_round_trip(n: nat)
    ensures
        decimal_value(decimal(n)) == n,
        decimal(n).len() >= 1,
    decreases n,
{
    let d = n % 10;
    assert(digit_char(d) as int == d + 48);
    if n >= 10 {
        lemma_decimal_round_trip(n / 10);
        assert(decimal(n).drop_last() =~= decimal(n / 10));
        assert(decimal(n).last() == digit_char(d));
        assert(decimal_value(decimal(n)) == decimal_value(decimal(n / 10)) * 10 + d);
    } else {
        assert(decimal(n).drop_last() =~= Seq::<char>::empty());
        assert(decimal(n).last() == digit_char(d));
        assert(decimal_value(decimal(n)) == decimal_value(Seq::<char>::empty()) * 10 + d);
    }
}

/// Log-line law: the level column holds the level label, padded with spaces
/// to at least `LEVEL_WIDTH` characters, so the messages of the three levels
/// start in the same column.
pub proof fn lemma_level_column(label: Seq<char>)
    ensures
        padded_label(label).len() >= LEVEL_WIDTH,
        padded_label(label).len() == if label.len() < LEVEL_WIDTH {
            LEVEL_WIDTH as nat
        } else {
            label.len()
        },
        padded_label(label).take(label.len() as int) =~= label,
        forall|i: int|
            label.len() <= i < padded_label(label).len() ==> #[trigger] padded_label(label)[i]
                == ' ',
{
}

fn digit_str(d: u64) -> (s: &'static str)
    requires
        d < 10,
    ensures
        s@ == seq![digit_char(d as nat)],
{
    proof {
        reveal_strlit("0");
        reveal_strlit("1");
        reveal_strlit("2");
        reveal_strlit("3");
        reveal_strlit("4");
        reveal_strlit("5");
        reveal_strlit("6");
        reveal_strlit("7");
        reveal_strlit("8");
        reveal_strlit("9");
    }
    if d == 0 {
        "0"
    } else if d == 1 {
        "1"
    } else if d == 2 {
        "2"
    } else if d == 3 {
        "3"
    } else if d == 4 {
        "4"
    } else if d == 5 {
        "5"
    } else if d == 6 {
        "6"
    } else if d == 7 {
        "7"
    } else if d == 8 {
        "8"
    } else {
        "9"
    }
}

/// Decimal notation of `n`, as the `{}` format of a `u64` prints it.
pub fn decimal_string(n: u64) -> (s: String)
    ensures
        s@ == decimal(n as nat),
    decreases n,
{
    if n < 10 {
        String::from_str(digit_str(n))
    } else {
        let mut s = decimal_string(n / 10);
        s.append(digit_str(n % 10));
        s
    }
}

/// Formats one log line: the Unix time in seconds in brackets, the level
/// label left-aligned in a column of five characters, the message, and a
/// newline.
pub fn format_log_line(seconds: u64, level: &str, message: &str) -> (line: String)
    ensures
        line@ == spec_log_line(seconds as nat, level@, message@),
{
    let mut line = String::from_str("[");
    line.append(decimal_string(seconds).as_str());
    line.append("] ");
    line.append(level);
    let label_len = level.unicode_len();
    let mut width = label_len;
    while width < LEVEL_WIDTH
        invariant
            label_len == level@.len(),
            label_len <= width,
            width <= LEVEL_WIDTH || width == label_len,
            line@ == "["@ + decimal(seconds as nat) + "] "@ + level@ + Seq::new(
                (width - label_len) as nat,
                |i: int| ' ',
            ),
        decreases LEVEL_WIDTH - width,
    {
        proof {
            reveal_strlit(" ");
        }
        line.append(" ");
        width = width + 1;
        assert(Seq::new((width - label_len) as nat, |i: int| ' ') =~= Seq::new(
            (width - 1 - label_len) as nat,
            |i: int| ' ',
        ) + " "@);
    }
    assert(line@ == "["@ + decimal(seconds as nat) + "] "@ + padded_label(level@)) by {
        if label_len >= LEVEL_WIDTH {
            assert(Seq::new((width - label_len) as nat, |i: int| ' ') =~= Seq::<char>::empty());
        }
    }
    line.append(" ");
    line.append(message);
    line.append("\n");
    line
}

/// What a configured log-file path is taken relative to.
#[derive(Clone, Copy, Debug)]
pub enum LogPathBase {
    /// The path is absolute and used as it is.
    AsGiven,
    /// The path is joined to the directory of the configuration file.
    ConfigDirectory,
    /// The configuration path has no parent: the path is joined to `.`.
    CurrentDirectory,
}

/// Where a log-file path points: an absolute path as given, a relative one
/// next to the configuration file, or in the current directory when the
/// configuration path has no parent.
pub open spec fn spec_log_path_base(file_is_absolute: bool, config_has_parent: bool) -> LogPathBase {
    if file_is_absolute {
        LogPathBase::AsGiven
    } else if config_has_parent {
        LogPathBase::ConfigDirectory
    } else {
        LogPathBase::CurrentDirectory
    }
}

/// Decides what a configured log-file path is taken relative to.
pub fn log_path_base(file_is_absolute: bool, config_has_parent: bool) -> (base: LogPathBase)
    ensures
        base == spec_log_path_base(file_is_absolute, config_has_parent),
{
    if file_is_absolute {
        LogPathBase::AsGiven
    } else if config_has_parent {
        LogPathBase::ConfigDirectory
    } else {
        LogPathBase::CurrentDirectory
    }
}

/// The size in bytes at which the log file is rotated, for a configured
/// size in mebibytes; a product beyond `u64::MAX` saturates.
pub open spec fn spec_rotation_threshold(rotate_mib: u64) -> u64 {
    if rotate_mib * MIB > u64::MAX {
        u64::MAX
    } else {
        (rotate_mib * MIB) as u64
    }
}

/// The rotation threshold in bytes: `rotate_mib` mebibytes, saturating.
pub fn rotation_threshold(rotate_mib: u64) -> (max_bytes: u64)
    ensures
        max_bytes == spec_rotation_threshold(rotate_mib),
{
    match rotate_mib.checked_mul(MIB) {
        Some(bytes) => bytes,
        None => u64::MAX,
    }
}

/// Whether the log file is rotated before the next line is written: there
/// is a log file, rotation is switched on (a threshold above zero), and the
/// file has reached the threshold. A file whose size cannot be read counts
/// as empty.
pub open spec fn spec_should_rotate(has_file: bool, max_bytes: u64, current_len: Option<u64>) -> bool {
    &&& has_file
    &&& max_bytes > 0
    &&& current_len matches Some(len) && len >= max_bytes
}

/// Rotation law: without a log file, or with a rotation size of zero, the
/// log never rotates; a size of `rotate_mib` MiB rotates at exactly that many
/// bytes when it fits in a `u64`.
pub proof fn lemma_rotation_switched_off(
    has_file: bool,
    max_bytes: u64,
    current_len: Option<u64>,
    rotate_mib: u64,
)
    ensures
        !spec_should_rotate(false, max_bytes, current_len),
        !spec_should_rotate(has_file, 0, current_len),
        spec_rotation_threshold(0) == 0,
        rotate_mib * MIB <= u64::MAX ==> spec_rotation_threshold(rotate_mib) == rotate_mib * MIB,
        rotate_mib > 0 ==> spec_rotation_threshold(rotate_mib) > 0,
{
}

/// Decides whether to rotate the log file before writing a line.
pub fn should_rotate(has_file: bool, max_bytes: u64, current_len: Option<u64>) -> (rotate: bool)
    ensures
        rotate == spec_should_rotate(has_file, max_bytes, current_len),
{
    let len = match current_len {
        Some(len) => len,
        None => 0,
    };
    has_file && max_bytes > 0 && len >= max_bytes
}

} // verus!
