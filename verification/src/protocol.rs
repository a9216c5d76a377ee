//! The values exchanged between peers: the description of a device and the
//! newline-delimited control messages of a transfer.
//!
//! Their JSON form (a `type` tag in SCREAMING_SNAKE_CASE, then the fields) is
//! written and read around the library by `serde`; the library works on the
//! values and on the line framing.

use vstd::prelude::*;
use crate::text::{push_char, owned};
use vstd::std_specs::iter::IteratorSpec;

verus! {

/// A peer on the local network: its name and where its transfer server
/// listens.
#[derive(Debug, Clone, PartialEq)]
pub struct DeviceInfo {
    pub name: String,
    pub ip: String,
    pub port: u16,
}

/// The model of a device: its texts as character sequences.
pub struct DeviceModel {
    pub name: Seq<char>,
    pub ip: Seq<char>,
    pub port: u16,
}

impl View for DeviceInfo {
    type V = DeviceModel;

    open spec fn view(&self) -> DeviceModel {
        DeviceModel { name: self.name@, ip: self.ip@, port: self.port }
    }
}

impl DeviceInfo {
    /// A copy of the device description.
    pub fn duplicate(&self) -> (d: DeviceInfo)
        ensures
            d@ == self@,
    {
        DeviceInfo {
            name: owned(self.name.as_str()),
            ip: owned(self.ip.as_str()),
            port: self.port,
        }
    }
}

/// A control message of the transfer protocol.
#[derive(Debug)]
pub enum Message {
    /// The sender announces a file.
    Hello {
        sender_name: String,
        file_name: String,
        file_size: u64,
        checksum: String,
        transfer_id: String,
    },
    /// The receiver accepts the announced file.
    Accept { transfer_id: String },
    /// The receiver refuses the announced file.
    Refuse { transfer_id: String },
    /// End of the data.
    Done,
    /// Acknowledgement of the end of the data.
    DoneAck,
    /// The receiver rejects the request.
    Error { reason: String },
}

/// The model of a message: its texts as character sequences.
pub enum MessageModel {
    Hello {
        sender_name: Seq<char>,
        file_name: Seq<char>,
        file_size: u64,
        checksum: Seq<char>,
        transfer_id: Seq<char>,
    },
    Accept { transfer_id: Seq<char> },
    Refuse { transfer_id: Seq<char> },
    Done,
    DoneAck,
    Error { reason: Seq<char> },
}

impl View for Message {
    type V = MessageModel;

    open spec fn view(&self) -> MessageModel {
        match self {
            Message::Hello { sender_name, file_name, file_size, checksum, transfer_id } =>
                MessageModel::Hello {
                sender_name: sender_name@,
                file_name: file_name@,
                file_size: *file_size,
                checksum: checksum@,
                transfer_id: transfer_id@,
            },
            Message::Accept { transfer_id } => MessageModel::Accept { transfer_id: transfer_id@ },
            Message::Refuse { transfer_id } => MessageModel::Refuse { transfer_id: transfer_id@ },
            Message::Done => MessageModel::Done,
            Message::DoneAck => MessageModel::DoneAck,
            Message::Error { reason } => MessageModel::Error { reason: reason@ },
        }
    }
}

/// The model of an optional message.
pub open spec fn message_option_model(m: Option<Message>) -> Option<MessageModel> {
    match m {
        Some(msg) => Some(msg@),
        None => None,
    }
}

/// A message as one line on the wire: its JSON text followed by a newline.
pub open spec fn framed(json: Seq<char>) -> Seq<char> {
    json.push('\n')
}

/// Frames the JSON text of a message as one line.
pub fn frame_line(json: &str) -> (line: String)
    ensures
        line@ == framed(json@),
{
    let mut line = owned(json);
    push_char(&mut line, '\n');
    line
}

/// Whether a character is white space for `str::trim` (the Unicode
/// `White_Space` property).
pub open spec fn is_white_space(c: char) -> bool {
    ||| ('\u{9}' <= c && c <= '\u{d}')
    ||| c == ' '
    ||| c == '\u{85}'
    ||| c == '\u{a0}'
    ||| c == '\u{1680}'
    ||| ('\u{2000}' <= c && c <= '\u{200a}')
    ||| c == '\u{2028}'
    ||| c == '\u{2029}'
    ||| c == '\u{202f}'
    ||| c == '\u{205f}'
    ||| c == '\u{3000}'
}

/// The text with its leading white space removed.
pub open spec fn trim_start(s: Seq<char>) -> Seq<char>
    decreases s.len(),
{
    if s.len() > 0 && is_white_space(s[0]) {
        trim_start(s.drop_first())
    } else {
        s
    }
}

/// The text with its trailing white space removed.
pub open spec fn trim_end(s: Seq<char>) -> Seq<char>
    decreases s.len(),
{
    if s.len() > 0 && is_white_space(s.last()) {
        trim_end(s.drop_last())
    } else {
        s
    }
}

/// The text with white space removed at both ends (`str::trim`).
pub open spec fn trimmed(s: Seq<char>) -> Seq<char> {
    trim_end(trim_start(s))
}

fn white_space(c: char) -> (r: bool)
    ensures
        r == is_white_space(c),
{
    ('\u{9}' <= c && c <= '\u{d}') || c == ' ' || c == '\u{85}' || c == '\u{a0}' || c
        == '\u{1680}' || ('\u{2000}' <= c && c <= '\u{200a}') || c == '\u{2028}' || c
        == '\u{2029}' || c == '\u{202f}' || c == '\u{205f}' || c == '\u{3000}'
}

proof fn lemma_trim_start_skip(s: Seq<char>, k: int)
    requires
        0 <= k <= s.len(),
        forall|i: int| 0 <= i < k ==> is_white_space(#[trigger] s[i]),
        k == s.len() || !is_white_space(s[k]),
    ensures
        trim_start(s) == s.skip(k),
    decreases k,
{
    if k == 0 {
        assert(s.skip(0) =~= s);
    } else {
        assert(is_white_space(s[0]));
        let t = s.drop_first();
        assert forall|i: int| 0 <= i < k - 1 implies is_white_space(#[trigger] t[i]) by {
            assert(t[i] == s[i + 1]);
        }
        lemma_trim_start_skip(t, k - 1);
        assert(t.skip(k - 1) =~= s.skip(k));
    }
}

proof fn lemma_trim_end_take(s: Seq<char>, k: int)
    requires
        0 <= k <= s.len(),
        forall|i: int| k <= i < s.len() ==> is_white_space(#[trigger] s[i]),
        k == 0 || !is_white_space(s[k - 1]),
    ensures
        trim_end(s) == s.take(k),
    decreases s.len() - k,
{
    if k == s.len() {
        assert(s.take(k) =~= s);
    } else {
        assert(is_white_space(s.last()));
        let t = s.drop_last();
        assert forall|i: int| k <= i < t.len() implies is_white_space(#[trigger] t[i]) by {
            assert(t[i] == s[i]);
        }
        lemma_trim_end_take(t, k);
        assert(t.take(k) =~= s.take(k));
    }
}

/// The characters of a string slice, in order.
pub fn char_vec(s: &str) -> (v: Vec<char>)
    ensures
        v@ == s@,
{
    broadcast use vstd::string::group_string_axioms;

    let mut v: Vec<char> = Vec::new();
    let mut chars = s.chars();
    loop
        invariant
            v@ + chars.remaining() == s@,
            chars.decrease() is Some,
        ensures
            v@ == s@,
        decreases chars.decrease()->0,
    {
        match chars.next() {
            Some(c) => {
                v.push(c);
            },
            None => {
                assert(v@ + chars.remaining() =~= v@);
                break ;
            },
        }
    }
    v
}

/// The message text of a received line: the line with the white space at
/// both ends removed, its newline included.
pub fn unframe_line(line: &str) -> (text: String)
    ensures
        text@ == trimmed(line@),
{
    let v = char_vec(line);
    let n = v.len();
    let mut lo: usize = 0;
    while lo < n && white_space(v[lo])
        invariant
            n == v@.len(),
            lo <= n,
            forall|i: int| 0 <= i < lo ==> is_white_space(#[trigger] v@[i]),
        decreases n - lo,
    {
        lo += 1;
    }
    proof {
        lemma_trim_start_skip(v@, lo as int);
    }
    let mut hi: usize = n;
    while hi > lo && white_space(v[hi - 1])
        invariant
            n == v@.len(),
            lo <= hi <= n,
            forall|i: int| hi <= i < n ==> is_white_space(#[trigger] v@[i]),
        decreases hi,
    {
        hi -= 1;
    }
    let ghost rest = v@.skip(lo as int);
    proof {
        assert forall|i: int| hi - lo <= i < rest.len() implies is_white_space(#[trigger] rest[i]) by {
            assert(rest[i] == v@[i + lo]);
        }
        if hi > lo {
            assert(rest[hi - lo - 1] == v@[hi - 1]);
        }
        lemma_trim_end_take(rest, hi - lo);
    }
    let mut text = String::new();
    let mut i: usize = lo;
    while i < hi
        invariant
            n == v@.len(),
            lo <= i <= hi <= n,
            text@ == v@.subrange(lo as int, i as int),
        decreases hi - i,
    {
        push_char(&mut text, v[i]);
        assert(v@.subrange(lo as int, i + 1) =~= v@.subrange(lo as int, i as int).push(v@[i as int]));
        i += 1;
    }
    assert(rest.take(hi - lo) =~= v@.subrange(lo as int, hi as int));
    text
}

} // verus!
