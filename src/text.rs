//! Character-level string comparisons.
use vstd::prelude::*;
use vstd::string::*;
use crate::model::{Message, Part};

verus! {

/// Whether two strings hold the same characters.
pub fn str_eq(a: &str, b: &str) -> (r: bool)
    ensures
        r == (a@ == b@),
{
    let n = a.unicode_len();
    let m = b.unicode_len();
    if n != m {
        return false;
    }
    let mut i: usize = 0;
    while i < n
        invariant
            n == a@.len(),
            m == b@.len(),
            n == m,
            i <= n,
            a@.take(i as int) == b@.take(i as int),
        decreases n - i,
    {
        if a.get_char(i) != b.get_char(i) {
            assert(a@[i as int] != b@[i as int]);
            return false;
        }
        i = i + 1;
        assert(a@.take(i as int) =~= a@.take((i - 1) as int).push(a@[(i - 1) as int]));
        assert(b@.take(i as int) =~= b@.take((i - 1) as int).push(b@[(i - 1) as int]));
    }
    assert(a@ =~= a@.take(n as int));
    assert(b@ =~= b@.take(n as int));
    true
}

/// Whether `s` begins with `prefix`.
pub fn starts_with(s: &str, prefix: &str) -> (r: bool)
    ensures
        r == (prefix@.len() <= s@.len() && s@.subrange(0, prefix@.len() as int) == prefix@),
{
    let n = s.unicode_len();
    let k = prefix.unicode_len();
    if k > n {
        return false;
    }
    let head = s.substring_char(0, k);
    str_eq(head, prefix)
}


/// Contents of the text parts, in order.
pub open spec fn texts_of(ps: Seq<Part>) -> Seq<Seq<char>>
    decreases ps.len(),
{
    if ps.len() == 0 {
        Seq::empty()
    } else {
        texts_of(ps.drop_last()) + match ps.last() {
            Part::Text { content, .. } => seq![content@],
            _ => Seq::empty(),
        }
    }
}

/// Lines joined with `\n` between them.
pub open spec fn join_lines(ts: Seq<Seq<char>>) -> Seq<char>
    decreases ts.len(),
{
    if ts.len() == 0 {
        Seq::empty()
    } else if ts.len() == 1 {
        ts[0]
    } else {
        join_lines(ts.drop_last()) + "\n"@ + ts.last()
    }
}

/// The text parts' contents joined with `\n`.
pub fn joined_text(parts: &Vec<Part>) -> (r: String)
    ensures
        r@ == join_lines(texts_of(parts@)),
{
    let mut r = String::new();
    let mut any: bool = false;
    let mut j: usize = 0;
    while j < parts.len()
        invariant
            j <= parts@.len(),
            any == (texts_of(parts@.take(j as int)).len() > 0),
            r@ == join_lines(texts_of(parts@.take(j as int))),
        decreases parts@.len() - j,
    {
        let ghost before = texts_of(parts@.take(j as int));
        proof {
            assert(parts@.take(j + 1).drop_last() =~= parts@.take(j as int));
        }
        match &parts[j] {
            Part::Text { content, .. } => {
                if any {
                    r.append("\n");
                }
                r.append(content.as_str());
                proof {
                    let now = texts_of(parts@.take(j + 1));
                    assert(now == before.push(content@)) by {
                        assert(before + seq![content@] =~= before.push(content@));
                    }
                    assert(now.drop_last() =~= before);
                    if !any {
                        assert(before.len() == 0);
                        assert(r@ =~= join_lines(now));
                    } else {
                        assert(r@ =~= join_lines(now));
                    }
                }
                any = true;
            },
            _ => {
                proof {
                    assert(texts_of(parts@.take(j + 1)) =~= before);
                }
            },
        }
        j = j + 1;
    }
    assert(parts@.take(parts@.len() as int) =~= parts@);
    r
}

/// Instructions after adding one more block of text; empty text adds nothing.
pub open spec fn add_instruction(acc: Option<Seq<char>>, t: Seq<char>) -> Option<Seq<char>> {
    if t.len() == 0 {
        acc
    } else {
        match acc {
            Some(a) => Some(a + "\n"@ + t),
            None => Some(t),
        }
    }
}

/// The configured instructions followed by the text of every system message,
/// joined with `\n`.
pub open spec fn system_instructions(base: Option<Seq<char>>, ms: Seq<Message>) -> Option<Seq<char>>
    decreases ms.len(),
{
    if ms.len() == 0 {
        base
    } else {
        let prev = system_instructions(base, ms.drop_last());
        if ms.last() is System {
            add_instruction(prev, join_lines(texts_of(ms.last().spec_parts())))
        } else {
            prev
        }
    }
}

/// Collects the system instructions of a request.
pub fn collect_instructions(base: &Option<String>, messages: &Vec<Message>) -> (r: Option<String>)
    ensures
        (match r {
            Some(s) => Some(s@),
            None => None,
        }) == system_instructions(
            match base {
                Some(s) => Some(s@),
                None => None,
            },
            messages@,
        ),
{
    let ghost b: Option<Seq<char>> = match base {
        Some(s) => Some(s@),
        None => None,
    };
    let mut acc: Option<String> = match base {
        Some(s) => Some(s.clone()),
        None => None,
    };
    let mut i: usize = 0;
    while i < messages.len()
        invariant
            i <= messages@.len(),
            (match acc {
                Some(s) => Some(s@),
                None => None,
            }) == system_instructions(b, messages@.take(i as int)),
        decreases messages@.len() - i,
    {
        proof {
            assert(messages@.take(i + 1).drop_last() =~= messages@.take(i as int));
        }
        match &messages[i] {
            Message::System(parts) => {
                let t = joined_text(parts);
                if t.unicode_len() > 0 {
                    acc = match acc {
                        Some(a) => {
                            let mut a = a;
                            a.append("\n");
                            a.append(t.as_str());
                            Some(a)
                        },
                        None => Some(t),
                    };
                }
            },
            _ => {},
        }
        i = i + 1;
    }
    assert(messages@.take(messages@.len() as int) =~= messages@);
    acc
}
} // verus!
