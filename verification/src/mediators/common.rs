//! Helpers shared by the mediators and the workers that run them.

use vstd::prelude::*;
use vstd::string::*;

use vstd::slice::slice_subrange;

use crate::text::{decimal, lemma_decimal_len, push_decimal, push_without, without, zero_padded};

verus! {

/// The most bytes of a body that a sample holds.
pub const SAMPLE_LENGTH: usize = 200;

/// The text that `String::from_utf8_lossy` makes of bytes.
pub uninterp spec fn lossy_text(bytes: Seq<u8>) -> Seq<char>;

/// The text that `hyper::StatusCode` shows for a status code through its
/// `Display`, or `None` for a number that `StatusCode::from_u16` refuses.
pub uninterp spec fn status_line(code: u16) -> Option<Seq<char>>;

/// Decodes bytes with `String::from_utf8_lossy`. The contract names the
/// text.
#[verifier::external_body]
fn utf8_lossy(bytes: &[u8]) -> (text: String)
    ensures
        text@ == lossy_text(bytes@),
{
    String::from_utf8_lossy(bytes).into_owned()
}

/// Makes a `hyper::StatusCode` of the number with `StatusCode::from_u16` and
/// renders it through its `Display`. The contract names the text, and `None`
/// stands for a number that `from_u16` refused.
#[verifier::external_body]
fn status_text(code: u16) -> (text: Option<String>)
    ensures
        text.deep_view() == status_line(code),
{
    match hyper::StatusCode::from_u16(code) {
        Ok(status) => Some(status.to_string()),
        Err(_) => None,
    }
}

/// What is logged of a response: its status, the length of its body, and a
/// sample of the body on one line.
#[derive(Debug, Clone, PartialEq, Eq)]
pub struct BodySample {
    pub status: String,
    pub body_length: usize,
    pub body: String,
}

/// The mathematical content of a [`BodySample`].
pub struct BodySampleView {
    pub status: Seq<char>,
    pub body_length: nat,
    pub body: Seq<char>,
}

impl View for BodySample {
    type V = BodySampleView;

    open spec fn view(&self) -> BodySampleView {
        BodySampleView {
            status: self.status@,
            body_length: self.body_length as nat,
            body: self.body@,
        }
    }
}

/// The part of a body that is sampled: its first bytes, up to
/// [`SAMPLE_LENGTH`] of them.
pub open spec fn sampled_bytes(body: Seq<u8>) -> Seq<u8> {
    if body.len() <= SAMPLE_LENGTH {
        body
    } else {
        body.take(SAMPLE_LENGTH as int)
    }
}

/// The sample of a response, where `status` is the text of its status code
/// if it has one, and `text` is the sampled part of the body as text.
///
/// A status code without a text is shown as a number. The body is shown
/// without its line feeds and with three dots at its end.
pub open spec fn body_sample(
    status: Option<Seq<char>>,
    code: u16,
    body_length: nat,
    text: Seq<char>,
) -> BodySampleView {
    BodySampleView {
        status: match status {
            Some(line) => line,
            None => decimal(code as nat),
        },
        body_length,
        body: without(text, '\n') + "..."@,
    }
}

impl BodySample {
    /// Puts a sample together from the text of the status code, if it has
    /// one, the length of the body, and the sampled part of the body as
    /// text.
    pub fn new(status: Option<String>, code: u16, body_length: usize, text: &str) -> (sample:
        BodySample)
        ensures
            sample@ == body_sample(status.deep_view(), code, body_length as nat, text@),
    {
        let status = match status {
            Some(line) => line,
            None => {
                let mut number = String::new();
                push_decimal(&mut number, code as u64);
                number
            },
        };
        let mut body = String::new();
        push_without(&mut body, text, '\n');
        body.append("...");
        BodySample { status, body_length, body }
    }
}

/// Samples a response for the log.
pub fn log_body_sample(status: u16, body: &[u8]) -> (sample: BodySample)
    ensures
        sample@ == body_sample(
            status_line(status),
            status,
            body@.len(),
            lossy_text(sampled_bytes(body@)),
        ),
{
    let taken: usize = if body.len() <= SAMPLE_LENGTH {
        body.len()
    } else {
        SAMPLE_LENGTH
    };
    let head = slice_subrange(body, 0, taken);
    assert(head@ =~= sampled_bytes(body@));
    let text = utf8_lossy(head);
    BodySample::new(status_text(status), status, body.len(), text.as_str())
}

/// The name of the worker thread with number `n`: the word `thread_` and the
/// number in decimal, padded with zeros to three digits.
pub open spec fn thread_name_text(n: nat) -> Seq<char> {
    "thread_"@ + zero_padded(n, 3)
}

/// Names the worker thread with number `n`.
pub fn thread_name(n: u32) -> (name: String)
    ensures
        name@ == thread_name_text(n as nat),
{
    let mut name = String::from_str("thread_");
    proof {
        lemma_decimal_len(n as nat);
        reveal_strlit("0");
        reveal_strlit("00");
    }
    if n < 10 {
        name.append("00");
    } else if n < 100 {
        name.append("0");
    }
    push_decimal(&mut name, n as u64);
    name
}

} // verus!
