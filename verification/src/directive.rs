//! The tool directive `<tool name="NAME">BODY</tool>` and the search for the
//! first one in an assistant message.

use crate::message::{InvocationModel, ToolInvocation};
use crate::text::{
    chars_of, find, find_from, has_at, lemma_find_from, lemma_find_from_is, matches_at,
    string_of_range, trim_bounds, trimmed,
};
use vstd::prelude::*;

verus! {

/// The text that opens a directive, up to and including the quote before the
/// name.
#[verifier::opaque]
pub open spec fn open_tag() -> Seq<char> {
    seq!['<', 't', 'o', 'o', 'l', ' ', 'n', 'a', 'm', 'e', '=', '"']
}

/// The double quote.
#[verifier::opaque]
pub open spec fn quote() -> Seq<char> {
    seq!['"']
}

/// The text between the name and the body.
#[verifier::opaque]
pub open spec fn name_end() -> Seq<char> {
    seq!['"', '>']
}

/// The text that closes a directive.
#[verifier::opaque]
pub open spec fn close_tag() -> Seq<char> {
    seq!['<', '/', 't', 'o', 'o', 'l', '>']
}

/// The two parts of a directive as they stand in the message.
pub struct Directive {
    pub name: Seq<char>,
    pub body: Seq<char>,
}

/// The directive that starts at position `i` of `s`, if one does: the opening
/// text, a name of one or more characters other than the quote, the quote and
/// `>`, then the body, which runs up to the first closing text after it.
pub open spec fn directive_at(s: Seq<char>, i: int) -> Option<Directive> {
    if !has_at(s, i, open_tag()) {
        None
    } else {
        let start = i + open_tag().len();
        match find_from(s, quote(), start) {
            None => None,
            Some(q) => if q == start || !has_at(s, q, name_end()) {
                None
            } else {
                match find_from(s, close_tag(), q + name_end().len()) {
                    None => None,
                    Some(c) => Some(
                        Directive {
                            name: s.subrange(start, q),
                            body: s.subrange(q + name_end().len(), c),
                        },
                    ),
                }
            },
        }
    }
}

/// The directive that starts first in `s` at or after position `i`.
pub open spec fn first_directive_from(s: Seq<char>, i: int) -> Option<Directive>
    decreases s.len() + 1 - i,
{
    if i < 0 || i >= s.len() {
        None
    } else {
        match directive_at(s, i) {
            Some(d) => Some(d),
            None => first_directive_from(s, i + 1),
        }
    }
}

/// The tool invocation that a message asks for: the name of its first
/// directive as written, and the body of that directive, trimmed. Later
/// directives in the same message are not honoured.
pub open spec fn invocation_of(s: Seq<char>) -> Option<InvocationModel> {
    match first_directive_from(s, 0) {
        Some(d) => Some(InvocationModel { name: d.name, input: trimmed(d.body) }),
        None => None,
    }
}

/// The text of a directive with the given name and body.
pub open spec fn directive_text(name: Seq<char>, body: Seq<char>) -> Seq<char> {
    open_tag() + name + name_end() + body + close_tag()
}

/// A name that a directive can carry: not empty, and without a quote.
pub open spec fn is_name(name: Seq<char>) -> bool {
    &&& name.len() > 0
    &&& forall|k: int| 0 <= k < name.len() ==> name[k] != '"'
}

/// A body that a directive can carry: the closing text occurs nowhere in it.
pub open spec fn is_body(body: Seq<char>) -> bool {
    forall|k: int| !has_at(body, k, close_tag())
}

/// The shape of the four delimiters: their lengths, and that `<` stands at
/// the start of the opening and of the closing text and nowhere else in them.
pub proof fn lemma_tags()
    ensures
        open_tag().len() == 12,
        open_tag()[0] == '<',
        forall|k: int| 1 <= k < 12 ==> open_tag()[k] != '<',
        quote().len() == 1,
        quote()[0] == '"',
        name_end().len() == 2,
        name_end()[0] == '"',
        name_end()[1] == '>',
        close_tag().len() == 7,
        close_tag()[0] == '<',
        forall|k: int| 1 <= k < 7 ==> close_tag()[k] != '<',
{
    reveal(open_tag);
    reveal(quote);
    reveal(name_end);
    reveal(close_tag);
}

fn open_chars() -> (v: Vec<char>)
    ensures
        v@ == open_tag(),
{
    let mut v: Vec<char> = Vec::new();
    v.push('<');
    v.push('t');
    v.push('o');
    v.push('o');
    v.push('l');
    v.push(' ');
    v.push('n');
    v.push('a');
    v.push('m');
    v.push('e');
    v.push('=');
    v.push('"');
    proof {
        reveal(open_tag);
    }
    v
}

fn quote_chars() -> (v: Vec<char>)
    ensures
        v@ == quote(),
{
    let mut v: Vec<char> = Vec::new();
    v.push('"');
    proof {
        reveal(quote);
    }
    v
}

fn name_end_chars() -> (v: Vec<char>)
    ensures
        v@ == name_end(),
{
    let mut v: Vec<char> = Vec::new();
    v.push('"');
    v.push('>');
    proof {
        reveal(name_end);
    }
    v
}

fn close_chars() -> (v: Vec<char>)
    ensures
        v@ == close_tag(),
{
    let mut v: Vec<char> = Vec::new();
    v.push('<');
    v.push('/');
    v.push('t');
    v.push('o');
    v.push('o');
    v.push('l');
    v.push('>');
    proof {
        reveal(close_tag);
    }
    v
}

/// The bounds of a directive found in a message: the name is
/// `name_from..name_to`, the body `body_from..body_to`.
struct Bounds {
    name_from: usize,
    name_to: usize,
    body_from: usize,
    body_to: usize,
}

impl Bounds {
    spec fn fits(self, s: Seq<char>) -> bool {
        self.name_from <= self.name_to <= self.body_from <= self.body_to <= s.len()
    }

    spec fn directive(self, s: Seq<char>) -> Directive {
        Directive {
            name: s.subrange(self.name_from as int, self.name_to as int),
            body: s.subrange(self.body_from as int, self.body_to as int),
        }
    }
}

fn bounds_at(v: &Vec<char>, i: usize) -> (r: Option<Bounds>)
    requires
        i < v.len(),
    ensures
        match r {
            Some(b) => b.fits(v@) && directive_at(v@, i as int) == Some(b.directive(v@)),
            None => directive_at(v@, i as int).is_none(),
        },
{
    proof {
        lemma_tags();
    }
    let open = open_chars();
    if !matches_at(v, i, &open) {
        return None;
    }
    let start: usize = i + 12;
    let q = match find(v, &quote_chars(), start) {
        None => {
            return None;
        },
        Some(q) => q,
    };
    proof {
        lemma_find_from(v@, quote(), start as int);
    }
    if q == start || !matches_at(v, q, &name_end_chars()) {
        return None;
    }
    let body_from: usize = q + 2;
    let c = match find(v, &close_chars(), body_from) {
        None => {
            return None;
        },
        Some(c) => c,
    };
    proof {
        lemma_find_from(v@, close_tag(), body_from as int);
    }
    Some(Bounds { name_from: start, name_to: q, body_from, body_to: c })
}

/// The tool invocation that an assistant message asks for, if it asks for one.
pub fn extract_tool_call(text: &str) -> (r: Option<ToolInvocation>)
    ensures
        match r {
            Some(t) => invocation_of(text@) == Some(t@),
            None => invocation_of(text@).is_none(),
        },
{
    let v = chars_of(text);
    let mut i: usize = 0;
    while i < v.len()
        invariant
            i <= v.len(),
            v@ == text@,
            first_directive_from(v@, 0) == first_directive_from(v@, i as int),
        decreases v.len() - i,
    {
        match bounds_at(&v, i) {
            Some(b) => {
                let name = string_of_range(&v, b.name_from, b.name_to);
                let (lo, hi) = trim_bounds(&v, b.body_from, b.body_to);
                let input = string_of_range(&v, lo, hi);
                return Some(ToolInvocation { name, input });
            },
            None => {},
        }
        i += 1;
    }
    None
}

/// A directive that stands in a message, with no directive starting before
/// it, is the one that the message is read for.
pub proof fn lemma_first_directive_is(s: Seq<char>, from: int, at: int)
    requires
        0 <= from <= at < s.len(),
        directive_at(s, at).is_some(),
        forall|i: int| from <= i < at ==> directive_at(s, i).is_none(),
    ensures
        first_directive_from(s, from) == directive_at(s, at),
    decreases at - from,
{
    if from < at {
        lemma_first_directive_is(s, from + 1, at);
    }
}

/// In the text of a directive that follows `pre`, the directive at the end of
/// `pre` has the name and the body that the text was written with.
pub proof fn lemma_directive_at_written(
    pre: Seq<char>,
    name: Seq<char>,
    body: Seq<char>,
    post: Seq<char>,
)
    requires
        is_name(name),
        is_body(body),
    ensures
        directive_at(pre + directive_text(name, body) + post, pre.len() as int) == Some(
            Directive { name, body },
        ),
{
    lemma_tags();
    let s = pre + directive_text(name, body) + post;
    let i = pre.len() as int;
    let start = i + 12;
    let q = start + name.len();
    let b = q + 2;
    let c = b + body.len();
    assert(s.subrange(i, i + 12) =~= open_tag());
    assert(s.subrange(q, q + 1) =~= quote());
    lemma_find_from_is(s, quote(), start, q);
    assert(s.subrange(q, q + 2) =~= name_end());
    assert(s.subrange(c, c + 7) =~= close_tag());
    assert forall|k: int| b <= k < c implies !has_at(s, k, close_tag()) by {
        if has_at(s, k, close_tag()) {
            let w = s.subrange(k, k + 7);
            if k + 7 <= c {
                assert(body.subrange(k - b, k - b + 7) =~= w);
                assert(has_at(body, k - b, close_tag()));
            } else {
                assert(w[c - k] == close_tag()[c - k]);
            }
        }
    }
    lemma_find_from_is(s, close_tag(), b, c);
    assert(s.subrange(start, q) =~= name);
    assert(s.subrange(b, c) =~= body);
}

/// A message that holds the text of a directive, with no directive starting
/// before that text, asks for the tool of that name, with the body trimmed as
/// its input. This holds whatever follows the directive: a second directive
/// after the first is not honoured.
pub proof fn lemma_directive_is_extracted(
    pre: Seq<char>,
    name: Seq<char>,
    body: Seq<char>,
    post: Seq<char>,
)
    requires
        is_name(name),
        is_body(body),
        forall|i: int|
            0 <= i < pre.len() ==> directive_at(
                pre + directive_text(name, body) + post,
                i,
            ).is_none(),
    ensures
        invocation_of(pre + directive_text(name, body) + post) == Some(
            InvocationModel { name, input: trimmed(body) },
        ),
{
    let s = pre + directive_text(name, body) + post;
    lemma_directive_at_written(pre, name, body, post);
    lemma_first_directive_is(s, 0, pre.len() as int);
}

/// Where the opening text of a directive occurs nowhere in `pre`, no directive
/// starts in `pre`, whatever directive text follows it.
pub proof fn lemma_no_directive_before(
    pre: Seq<char>,
    name: Seq<char>,
    body: Seq<char>,
    post: Seq<char>,
)
    requires
        forall|k: int| !has_at(pre, k, open_tag()),
    ensures
        forall|i: int|
            0 <= i < pre.len() ==> directive_at(
                pre + directive_text(name, body) + post,
                i,
            ).is_none(),
{
    lemma_tags();
    let s = pre + directive_text(name, body) + post;
    let p = pre.len() as int;
    assert forall|i: int| 0 <= i < p implies directive_at(s, i).is_none() by {
        if has_at(s, i, open_tag()) {
            let w = s.subrange(i, i + 12);
            if i + 12 <= p {
                assert(pre.subrange(i, i + 12) =~= w);
                assert(has_at(pre, i, open_tag()));
            } else {
                assert(w[p - i] == open_tag()[p - i]);
            }
        }
    }
}

/// Of two directives in one message, the first alone is honoured: with no
/// opening text before it, the message asks for the first directive's tool,
/// whatever the second directive names.
pub proof fn lemma_first_of_two_directives(
    pre: Seq<char>,
    name: Seq<char>,
    body: Seq<char>,
    between: Seq<char>,
    second_name: Seq<char>,
    second_body: Seq<char>,
    post: Seq<char>,
)
    requires
        is_name(name),
        is_body(body),
        forall|k: int| !has_at(pre, k, open_tag()),
    ensures
        invocation_of(
            pre + directive_text(name, body) + between + directive_text(second_name, second_body)
                + post,
        ) == Some(InvocationModel { name, input: trimmed(body) }),
{
    let rest = between + directive_text(second_name, second_body) + post;
    lemma_no_directive_before(pre, name, body, rest);
    lemma_directive_is_extracted(pre, name, body, rest);
    assert(pre + directive_text(name, body) + between + directive_text(second_name, second_body)
        + post =~= pre + directive_text(name, body) + rest);
}

/// From any position on, a text in which the opening text of a directive
/// occurs nowhere holds no directive.
proof fn lemma_no_open_tag_no_directive(s: Seq<char>, from: int)
    requires
        0 <= from,
        forall|k: int| !has_at(s, k, open_tag()),
    ensures
        first_directive_from(s, from).is_none(),
    decreases s.len() + 1 - from,
{
    if from < s.len() {
        lemma_no_open_tag_no_directive(s, from + 1);
    }
}

/// A message in which the opening text of a directive occurs nowhere asks
/// for no tool.
pub proof fn lemma_no_open_tag_no_invocation(s: Seq<char>)
    requires
        forall|k: int| !has_at(s, k, open_tag()),
    ensures
        invocation_of(s).is_none(),
{
    lemma_no_open_tag_no_directive(s, 0);
}

} // verus!
