//! Formatting of the human-readable log lines, tagged `[NAME]` and padded to
//! the longest target name.
use vstd::prelude::*;
use vstd::utf8::encode_utf8;

verus! {

/// Severity of a log line.
#[derive(PartialEq, Eq, Structural, Clone, Copy, Debug)]
pub enum Level {
    Info,
    Warn,
}

/// A formatted line, ready to be handed to a logging sink.
pub struct LogLine {
    pub level: Level,
    pub text: String,
}

/// What `str::to_uppercase` returns on a text.
pub uninterp spec fn upper_of(s: Seq<char>) -> Seq<char>;

/// Relies on `str::to_uppercase`: the upper-case mapping of each character,
/// a function of the text alone; an empty text stays empty.
#[verifier::external_body]
fn uppercase(s: &str) -> (r: String)
    ensures
        r@ == upper_of(s@),
        s@.len() == 0 ==> r@.len() == 0,
{
    s.to_uppercase()
}

/// Length of a text in UTF-8 bytes, as `str::len` reports it.
pub open spec fn byte_len(s: Seq<char>) -> nat {
    (encode_utf8(s).len() as usize) as nat
}

/// `n` spaces.
pub open spec fn spaces(n: nat) -> Seq<char> {
    Seq::new(n, |i: int| ' ')
}

/// Number of spaces that follow the tag of `ctx` so that tags line up at `padding`.
pub open spec fn pad_width(ctx: Seq<char>, padding: nat) -> nat {
    if padding > byte_len(ctx) {
        (padding - byte_len(ctx)) as nat
    } else {
        0
    }
}

/// The tag that starts every line of `ctx`: `[CTX] ` then the padding spaces.
pub open spec fn tag_of(ctx: Seq<char>, padding: nat) -> Seq<char> {
    seq!['['] + upper_of(ctx) + seq![']', ' '] + spaces(pad_width(ctx, padding))
}

/// The whole text of a log line of `ctx` carrying `msg`.
pub open spec fn line_text(ctx: Seq<char>, msg: Seq<char>, padding: nat) -> Seq<char> {
    tag_of(ctx, padding) + msg
}

/// Formats `msg` under the tag of `ctx`, at warning level when `warn` holds.
pub fn info_warn(ctx: &str, msg: &str, warn: bool, padding: usize) -> (r: LogLine)
    ensures
        r.text@ == line_text(ctx@, msg@, padding as nat),
        r.level == (if warn { Level::Warn } else { Level::Info }),
{
    let mut text = String::from_str("[");
    let upper = uppercase(ctx);
    text.append(upper.as_str());
    text.append("] ");
    proof {
        reveal_strlit("[");
        reveal_strlit("] ");
        reveal_strlit(" ");
    }
    let used = ctx.len();
    let width: usize = if padding > used { padding - used } else { 0 };
    let ghost head = text@;
    assert(head =~= seq!['['] + upper_of(ctx@) + seq![']', ' ']);
    assert(width as nat == pad_width(ctx@, padding as nat));
    let mut i: usize = 0;
    while i < width
        invariant
            i <= width,
            text@ == head + spaces(i as nat),
        decreases width - i,
    {
        proof {
            reveal_strlit(" ");
        }
        text.append(" ");
        i = i + 1;
        assert(text@ =~= head + spaces(i as nat));
    }
    text.append(msg);
    LogLine { level: if warn { Level::Warn } else { Level::Info }, text }
}

/// An information line of `ctx`.
pub fn info(ctx: &str, msg: &str, padding: usize) -> (r: LogLine)
    ensures
        r.text@ == line_text(ctx@, msg@, padding as nat),
        r.level == Level::Info,
{
    info_warn(ctx, msg, false, padding)
}

/// A warning line of `ctx`.
pub fn warn(ctx: &str, msg: &str, padding: usize) -> (r: LogLine)
    ensures
        r.text@ == line_text(ctx@, msg@, padding as nat),
        r.level == Level::Warn,
{
    info_warn(ctx, msg, true, padding)
}

/// The largest byte length among `names`: tags padded to it line up.
pub open spec fn max_byte_len(names: Seq<Seq<char>>) -> nat
    decreases names.len(),
{
    if names.len() == 0 {
        0
    } else {
        let rest = max_byte_len(names.drop_last());
        let last = byte_len(names.last());
        if last > rest { last } else { rest }
    }
}

/// The padding width for a set of target names: the longest name, in bytes.
pub fn log_padding(names: &Vec<String>) -> (r: usize)
    ensures
        r as nat == max_byte_len(names@.map_values(|s: String| s@)),
{
    let mut best: usize = 0;
    let mut i: usize = 0;
    while i < names.len()
        invariant
            i <= names.len(),
            best as nat == max_byte_len(names@.subrange(0, i as int).map_values(|s: String| s@)),
        decreases names.len() - i,
    {
        let n = names[i].as_str().len();
        assert(n as nat == byte_len(names@[i as int]@));
        proof {
            let pre = names@.subrange(0, i as int).map_values(|s: String| s@);
            let next = names@.subrange(0, i + 1).map_values(|s: String| s@);
            assert(next.drop_last() =~= pre);
            assert(next.last() == names@[i as int]@);
        }
        if n > best {
            best = n;
        }
        i = i + 1;
        assert(best as nat == max_byte_len(names@.subrange(0, i as int).map_values(|s: String| s@)));
    }
    assert(names@.subrange(0, names.len() as int) =~= names@);
    best
}

} // verus!
