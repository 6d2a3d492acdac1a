//! Errors of the batch transcription backend, and their wording.
use vstd::prelude::*;
use vstd::string::StringExecFns;

verus! {

/// Errors of a batch transcription call.
#[derive(Debug, Clone)]
pub enum TranscriptionError {
    MissingApiKey,
    FileReadError(String),
    NetworkError(String),
    ApiError { status: u16, message: String },
    ParseError(String),
}

/// Decimal digits of `n`, without leading zeros.
pub open spec fn decimal(n: nat) -> Seq<char>
    decreases n,
{
    if n < 10 {
        seq![digit_char(n)]
    } else {
        decimal(n / 10).push(digit_char(n % 10))
    }
}

pub open spec fn digit_char(d: nat) -> char {
    if d == 0 { '0' } else if d == 1 { '1' } else if d == 2 { '2' } else if d == 3 { '3' } else if d
        == 4 { '4' } else if d == 5 { '5' } else if d == 6 { '6' } else if d == 7 { '7' } else if d
        == 8 { '8' } else { '9' }
}

fn digit(d: u16) -> (r: &'static str)
    requires
        d < 10,
    ensures
        r@ == seq![digit_char(d as nat)],
{
    proof {
        reveal_strlit("0");
        reveal_strlit("1");
        reveal_strlit("2");
        reveal_strlit("3");
        reveal_strlit("4");
        reveal_strlit("5");
        reveal_strlit("6");
        reveal_strlit("7");
        reveal_strlit("8");
        reveal_strlit("9");
    }
    if d == 0 { "0" } else if d == 1 { "1" } else if d == 2 { "2" } else if d == 3 { "3" } else if d
        == 4 { "4" } else if d == 5 { "5" } else if d == 6 { "6" } else if d == 7 { "7" } else if d
        == 8 { "8" } else { "9" }
}

/// `n` written in decimal.
pub fn decimal_string(n: u16) -> (r: String)
    ensures
        r@ == decimal(n as nat),
    decreases n,
{
    let last = digit(n % 10);
    if n < 10 {
        String::from_str(last)
    } else {
        let r = decimal_string(n / 10).concat(last);
        assert(r@ =~= decimal((n / 10) as nat).push(digit_char((n % 10) as nat)));
        r
    }
}

pub open spec fn transcription_error_text(e: TranscriptionError) -> Seq<char> {
    match e {
        TranscriptionError::MissingApiKey => "OpenAI API key not configured. Set OPENAI_API_KEY environment variable."@,
        TranscriptionError::FileReadError(s) => "Failed to read audio file: "@ + s@,
        TranscriptionError::NetworkError(s) => "Network error: "@ + s@,
        TranscriptionError::ApiError { status, message } => "OpenAI API error ("@ + decimal(
            status as nat,
        ) + "): "@ + message@,
        TranscriptionError::ParseError(s) => "Failed to parse API response: "@ + s@,
    }
}

impl TranscriptionError {
    /// Human-readable description.
    pub fn to_string(&self) -> (r: String)
        ensures
            r@ == transcription_error_text(*self),
    {
        match self {
            TranscriptionError::MissingApiKey => {
                proof {
                    reveal_strlit(
                        "OpenAI API key not configured. Set OPENAI_API_KEY environment variable.",
                    );
                }
                String::from_str(
                    "OpenAI API key not configured. Set OPENAI_API_KEY environment variable.",
                )
            },
            TranscriptionError::FileReadError(s) => {
                proof {
                    reveal_strlit("Failed to read audio file: ");
                }
                String::from_str("Failed to read audio file: ").concat(s.as_str())
            },
            TranscriptionError::NetworkError(s) => {
                proof {
                    reveal_strlit("Network error: ");
                }
                String::from_str("Network error: ").concat(s.as_str())
            },
            TranscriptionError::ApiError { status, message } => {
                proof {
                    reveal_strlit("OpenAI API error (");
                    reveal_strlit("): ");
                }
                let code = decimal_string(*status);
                String::from_str("OpenAI API error (").concat(code.as_str()).concat("): ").concat(
                    message.as_str(),
                )
            },
            TranscriptionError::ParseError(s) => {
                proof {
                    reveal_strlit("Failed to parse API response: ");
                }
                String::from_str("Failed to parse API response: ").concat(s.as_str())
            },
        }
    }
}

/// The largest of the known values in `s`, if any is known.
pub open spec fn max_known(s: Seq<Option<u32>>) -> Option<u32>
    decreases s.len(),
{
    if s.len() == 0 {
        None
    } else {
        let rest = max_known(s.drop_last());
        match (s.last(), rest) {
            (None, _) => rest,
            (Some(x), None) => Some(x),
            (Some(x), Some(y)) => Some(if x > y { x } else { y }),
        }
    }
}

/// The highest no-speech probability (in thousandths) over the segments of
/// a transcription that report one.
pub fn max_no_speech_permille(segments: &[Option<u32>]) -> (r: Option<u32>)
    ensures
        r == max_known(segments@),
{
    let mut best: Option<u32> = None;
    let mut i: usize = 0;
    while i < segments.len()
        invariant
            i <= segments@.len(),
            best == max_known(segments@.subrange(0, i as int)),
        decreases segments@.len() - i,
    {
        proof {
            assert(segments@.subrange(0, i + 1).drop_last() == segments@.subrange(0, i as int));
        }
        best = match (segments[i], best) {
            (None, b) => b,
            (Some(x), None) => Some(x),
            (Some(x), Some(y)) => Some(if x > y { x } else { y }),
        };
        i = i + 1;
    }
    assert(segments@.subrange(0, segments@.len() as int) == segments@);
    best
}

} // verus!
