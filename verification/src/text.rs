//! Text helpers: counting lines, and the item string of a choice menu.
use vstd::prelude::*;
use vstd::string::*;

verus! {

broadcast use vstd::string::group_string_axioms;

/// Number of line feeds in `s`.
pub open spec fn newlines(s: Seq<char>) -> nat
    decreases s.len(),
{
    if s.len() == 0 {
        0
    } else {
        newlines(s.drop_last()) + if s.last() == '\n' {
            1nat
        } else {
            0nat
        }
    }
}

/// Number of lines in `s`, as `str::lines` yields them: every line feed ends
/// a line, and text after the last line feed forms one more line.
pub open spec fn line_count(s: Seq<char>) -> nat {
    newlines(s) + if s.len() > 0 && s.last() != '\n' {
        1nat
    } else {
        0nat
    }
}

/// `s` with every `/` written as `\/`, which a menu takes literally rather
/// than as the start of a submenu.
pub open spec fn escape_slashes(s: Seq<char>) -> Seq<char>
    decreases s.len(),
{
    if s.len() == 0 {
        Seq::empty()
    } else {
        escape_slashes(s.drop_last()) + if s.last() == '/' {
            seq!['\\', '/']
        } else {
            seq![s.last()]
        }
    }
}

/// The items joined by `sep`.
pub open spec fn join(items: Seq<Seq<char>>, sep: Seq<char>) -> Seq<char>
    decreases items.len(),
{
    if items.len() == 0 {
        Seq::empty()
    } else if items.len() == 1 {
        items[0]
    } else {
        join(items.drop_last(), sep) + sep + items.last()
    }
}

/// The menu string of a choice holding `items`: the items joined by `|`,
/// with their slashes escaped.
pub open spec fn menu_text(items: Seq<Seq<char>>) -> Seq<char> {
    escape_slashes(join(items, seq!['|']))
}

proof fn newlines_concat(a: Seq<char>, b: Seq<char>)
    ensures
        newlines(a + b) == newlines(a) + newlines(b),
    decreases b.len(),
{
    if b.len() == 0 {
        assert(a + b =~= a);
    } else {
        newlines_concat(a, b.drop_last());
        assert((a + b).drop_last() =~= a + b.drop_last());
    }
}

/// Text cut after a line feed has as many lines as its two parts together:
/// `lines` never joins a terminated line with what follows it.
pub proof fn line_count_concat(a: Seq<char>, b: Seq<char>)
    requires
        a.len() == 0 || a.last() == '\n',
    ensures
        line_count(a + b) == line_count(a) + line_count(b),
{
    newlines_concat(a, b);
    if b.len() == 0 {
        assert(a + b =~= a);
    } else {
        assert((a + b).last() == b.last());
    }
}

/// Escaping works character by character: escaping two texts one after the
/// other is escaping them together.
pub proof fn escape_concat(a: Seq<char>, b: Seq<char>)
    ensures
        escape_slashes(a + b) == escape_slashes(a) + escape_slashes(b),
    decreases b.len(),
{
    if b.len() == 0 {
        assert(a + b =~= a);
        assert(escape_slashes(b) =~= Seq::<char>::empty());
        assert(escape_slashes(a) + escape_slashes(b) =~= escape_slashes(a));
    } else {
        escape_concat(a, b.drop_last());
        assert((a + b).drop_last() =~= a + b.drop_last());
        assert((a + b).last() == b.last());
        let tail = if b.last() == '/' {
            seq!['\\', '/']
        } else {
            seq![b.last()]
        };
        assert(escape_slashes(a) + escape_slashes(b.drop_last()) + tail =~= escape_slashes(a) + (
        escape_slashes(b.drop_last()) + tail));
    }
}

/// The escaped text of each item.
pub open spec fn escaped_items(items: Seq<Seq<char>>) -> Seq<Seq<char>> {
    items.map_values(|v: Seq<char>| escape_slashes(v))
}

/// The separators of a menu string are never escaped: it is the items,
/// each escaped on its own, joined by `|`.
pub proof fn menu_text_escapes_each_item(items: Seq<Seq<char>>)
    ensures
        menu_text(items) == join(escaped_items(items), seq!['|']),
    decreases items.len(),
{
    let bar = seq!['|'];
    if items.len() == 0 {
        assert(escape_slashes(Seq::<char>::empty()) =~= Seq::<char>::empty());
    } else if items.len() == 1 {
    } else {
        let front = items.drop_last();
        menu_text_escapes_each_item(front);
        assert(escaped_items(items).drop_last() =~= escaped_items(front));
        escape_concat(join(front, bar), bar);
        escape_concat(join(front, bar) + bar, items.last());
        assert(escape_slashes(bar) =~= bar) by {
            assert(bar.drop_last() =~= Seq::<char>::empty());
            assert(escape_slashes(Seq::<char>::empty()) =~= Seq::<char>::empty());
        }
    }
}

/// Counting line feeds: an empty text has none, and each further
/// character adds one exactly when it is a line feed.
pub proof fn newlines_step(s: Seq<char>, c: char)
    ensures
        newlines(Seq::empty()) == 0,
        newlines(s.push(c)) == newlines(s) + if c == '\n' {
            1int
        } else {
            0int
        },
{
    assert(s.push(c).drop_last() =~= s);
}

/// Lines as `str::lines` counts them: an empty text has none; a text that
/// ends in a line feed has one line per line feed; a text that ends in any
/// other character has one line more, its unterminated last line.
pub proof fn line_count_step(s: Seq<char>, c: char)
    ensures
        line_count(Seq::empty()) == 0,
        c == '\n' ==> line_count(s.push(c)) == newlines(s) + 1,
        c != '\n' ==> line_count(s.push(c)) == newlines(s) + 1,
        line_count(s.push(c)) == newlines(s.push(c)) + if c == '\n' {
            0int
        } else {
            1int
        },
{
    newlines_step(s, c);
    assert(s.push(c).last() == c);
}

/// Escaping changes nothing but slashes: an empty text stays empty, a
/// slash becomes a backslash and a slash, any other character stays as it
/// is; longer texts escape piece by piece (`escape_concat`).
pub proof fn escape_single(c: char)
    ensures
        escape_slashes(Seq::empty()) == Seq::<char>::empty(),
        c == '/' ==> escape_slashes(seq![c]) == seq!['\\', '/'],
        c != '/' ==> escape_slashes(seq![c]) == seq![c],
{
    assert(seq![c].drop_last() =~= Seq::<char>::empty());
    assert(escape_slashes(Seq::<char>::empty()) =~= Seq::<char>::empty());
    assert(Seq::<char>::empty() + seq!['\\', '/'] =~= seq!['\\', '/']);
    assert(Seq::<char>::empty() + seq![c] =~= seq![c]);
}

/// Joining: no items give nothing, one item gives itself, and a further
/// item comes after the others and one separator.
pub proof fn join_step(items: Seq<Seq<char>>, item: Seq<char>, sep: Seq<char>)
    ensures
        join(Seq::empty(), sep) == Seq::<char>::empty(),
        items.len() == 0 ==> join(items.push(item), sep) == item,
        items.len() > 0 ==> join(items.push(item), sep) == join(items, sep) + sep + item,
{
    assert(items.push(item).drop_last() =~= items);
    if items.len() == 0 {
        assert(items.push(item)[0] == item);
    }
}

/// Appends `c` to `s` (`String::push`).
#[verifier::external_body]
fn push_char(s: &mut String, c: char)
    ensures
        final(s)@ == old(s)@.push(c),
{
    s.push(c);
}

/// Number of lines of `s`, counted as `str::lines` counts them.
pub fn count_lines(s: &str) -> (n: usize)
    ensures
        n == line_count(s@),
{
    let len = s.unicode_len();
    let mut newline_count: usize = 0;
    let mut last: Option<char> = None;
    for c in it: s.chars()
        invariant
            len == s@.len(),
            it.seq() == s@,
            newline_count == newlines(s@.take(it.index())),
            newline_count <= it.index(),
            it.index() <= s@.len(),
            last matches Some(c) && c != '\n' ==> newline_count < it.index(),
            last == (if it.index() == 0 {
                None::<char>
            } else {
                Some(s@[it.index() - 1])
            }),
    {
        let ghost i = it.index();
        assert(s@.take(i + 1).drop_last() == s@.take(i));
        if c == '\n' {
            newline_count = newline_count + 1;
        }
        last = Some(c);
    }
    assert(s@.take(s@.len() as int) == s@);
    match last {
        Some(c) => if c != '\n' {
            newline_count + 1
        } else {
            newline_count
        },
        None => newline_count,
    }
}

/// `s` with every `/` escaped as `\/`.
pub fn escape_menu_text(s: &str) -> (r: String)
    ensures
        r@ == escape_slashes(s@),
{
    let mut out = String::new();
    for c in it: s.chars()
        invariant
            it.seq() == s@,
            out@ == escape_slashes(s@.take(it.index())),
    {
        let ghost i = it.index();
        assert(s@.take(i + 1).drop_last() == s@.take(i));
        if c == '/' {
            push_char(&mut out, '\\');
        }
        push_char(&mut out, c);
    }
    assert(s@.take(s@.len() as int) == s@);
    out
}

/// The menu string of a choice holding `items`: the items joined by `|`,
/// then every `/` escaped.
pub fn menu_items(items: &Vec<String>) -> (r: String)
    ensures
        r@ == menu_text(items@.map_values(|v: String| v@)),
{
    let ghost views = items@.map_values(|v: String| v@);
    let mut joined = String::new();
    for i in 0..items.len()
        invariant
            views.len() == items.len(),
            forall|k: int| 0 <= k < items.len() ==> #[trigger] views[k] == items[k]@,
            joined@ == join(views.take(i as int), seq!['|']),
    {
        assert(views.take((i + 1) as int).drop_last() == views.take(i as int));
        if i != 0 {
            proof {
                reveal_strlit("|");
            }
            joined.append("|");
        }
        joined.append(items[i].as_str());
    }
    assert(views.take(items.len() as int) == views);
    escape_menu_text(joined.as_str())
}

} // verus!
