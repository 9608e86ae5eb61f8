//! One call of the external encoder: how it is invoked and how its end is
//! read.
//!
//! The invoker runs the encoder once. It does not retry and does not look at
//! the artifact; both are the policy's business.

use vstd::prelude::*;
use vstd::string::StringExecFns;
use crate::quality::QualityLevel;

verus! {

/// The character that writes the digit `d`.
pub open spec fn digit(d: nat) -> char
    recommends
        d < 10,
{
    if d == 0 {
        '0'
    } else if d == 1 {
        '1'
    } else if d == 2 {
        '2'
    } else if d == 3 {
        '3'
    } else if d == 4 {
        '4'
    } else if d == 5 {
        '5'
    } else if d == 6 {
        '6'
    } else if d == 7 {
        '7'
    } else if d == 8 {
        '8'
    } else {
        '9'
    }
}

/// The number `n` written in base ten, without leading zeros.
pub open spec fn decimal(n: nat) -> Seq<char>
    decreases n,
{
    if n < 10 {
        seq![digit(n)]
    } else {
        decimal(n / 10).push(digit(n % 10))
    }
}

/// The arguments that the encoder is called with to encode `input` into
/// `output` at the quality level `level`:
///
/// - the input path;
/// - H.264 as the video codec;
/// - the quality level, as it is;
/// - the preset "fast", a fixed trade of encoding speed against size;
/// - AAC as the audio codec, at 128 kbit/s;
/// - a layout of the file that lets it be played while it still loads;
/// - leave to overwrite a file at the output path;
/// - the output path.
pub open spec fn encoder_arguments(input: Seq<char>, output: Seq<char>, level: u32) -> Seq<
    Seq<char>,
> {
    seq![
        "-i"@,
        input,
        "-vcodec"@,
        "libx264"@,
        "-crf"@,
        decimal(level as nat),
        "-preset"@,
        "fast"@,
        "-acodec"@,
        "aac"@,
        "-b:a"@,
        "128k"@,
        "-movflags"@,
        "+faststart"@,
        "-y"@,
        output,
    ]
}

/// The digit `d` as text.
fn digit_text(d: u32) -> (text: &'static str)
    requires
        d < 10,
    ensures
        text@ == seq![digit(d as nat)],
{
    proof {
        reveal_strlit("0");
        reveal_strlit("1");
        reveal_strlit("2");
        reveal_strlit("3");
        reveal_strlit("4");
        reveal_strlit("5");
        reveal_strlit("6");
        reveal_strlit("7");
        reveal_strlit("8");
        reveal_strlit("9");
    }
    let text: &'static str = if d == 0 {
        "0"
    } else if d == 1 {
        "1"
    } else if d == 2 {
        "2"
    } else if d == 3 {
        "3"
    } else if d == 4 {
        "4"
    } else if d == 5 {
        "5"
    } else if d == 6 {
        "6"
    } else if d == 7 {
        "7"
    } else if d == 8 {
        "8"
    } else {
        "9"
    };
    assert(text@ =~= seq![digit(d as nat)]);
    text
}

/// Writes `n` in base ten.
pub fn decimal_text(n: u32) -> (text: String)
    ensures
        text@ == decimal(n as nat),
    decreases n,
{
    if n < 10 {
        String::from_str(digit_text(n))
    } else {
        let mut text: String = decimal_text(n / 10);
        text.append(digit_text(n % 10));
        text
    }
}

/// The arguments for one call of the encoder.
pub fn encoder_args(input: &str, output: &str, level: QualityLevel) -> (args: Vec<String>)
    ensures
        args.deep_view() == encoder_arguments(input@, output@, level),
{
    let mut args: Vec<String> = Vec::new();
    args.push(String::from_str("-i"));
    args.push(String::from_str(input));
    args.push(String::from_str("-vcodec"));
    args.push(String::from_str("libx264"));
    args.push(String::from_str("-crf"));
    args.push(decimal_text(level));
    args.push(String::from_str("-preset"));
    args.push(String::from_str("fast"));
    args.push(String::from_str("-acodec"));
    args.push(String::from_str("aac"));
    args.push(String::from_str("-b:a"));
    args.push(String::from_str("128k"));
    args.push(String::from_str("-movflags"));
    args.push(String::from_str("+faststart"));
    args.push(String::from_str("-y"));
    args.push(String::from_str(output));
    assert(args.deep_view() =~= encoder_arguments(input@, output@, level));
    args
}

/// Why the encoder could not be started.
#[derive(Clone, Copy, Debug, PartialEq, Eq)]
pub enum LaunchCause {
    /// There is no program at the encoder's path.
    MissingBinary,
    /// The program may not be executed.
    PermissionDenied,
    /// Anything else.
    Other,
}

/// How one call of the encoder ended.
#[derive(Clone, Copy, Debug, PartialEq, Eq)]
pub enum InvokerOutcome {
    /// The encoder exited with a success status. Nothing is claimed of the
    /// artifact yet.
    Completed,
    /// The encoder ran and exited with a failure status, or was killed.
    ToolFailed {
        /// Its exit code, if it exited on its own.
        code: Option<i32>,
    },
    /// The encoder could not be started at all.
    LaunchFailed {
        /// Why it could not.
        cause: LaunchCause,
    },
}

impl InvokerOutcome {
    /// Reads the end of an encoder process that was started: `success` is
    /// its exit status taken as a whole, `code` its exit code if it has one.
    pub fn from_exit(success: bool, code: Option<i32>) -> (o: InvokerOutcome)
        ensures
            o == if success {
                InvokerOutcome::Completed
            } else {
                InvokerOutcome::ToolFailed { code }
            },
    {
        if success {
            InvokerOutcome::Completed
        } else {
            InvokerOutcome::ToolFailed { code }
        }
    }
}

} // verus!
