//! What is left of the placeholders of a template once its path is
//! resolved.
use crate::protocols::http::{or_empty, resolved_path};
use crate::text::{occurs_at, occurs_in, replaced};
use vstd::prelude::*;

verus! {

/// A text without a colon.
pub open spec fn is_plain(text: Seq<char>) -> bool {
    forall|i: int| 0 <= i < text.len() ==> text[i] != ':'
}

/// The colon at `at` cannot become the start of a placeholder: it ends the
/// text, or the character after it is none of `i`, `c` and `:`.
pub open spec fn is_stray(text: Seq<char>, at: int) -> bool {
    at + 1 == text.len() || (at + 1 < text.len() && text[at + 1] != 'i' && text[at + 1] != 'c'
        && text[at + 1] != ':')
}

/// Every colon of `text` starts `:index` where `index` is set, or starts
/// `:collection` where `collection` is set, or is stray.
pub open spec fn colons_marked(text: Seq<char>, index: bool, collection: bool) -> bool {
    forall|i: int|
        0 <= i < text.len() && text[i] == ':' ==> (index && occurs_at(text, i, ":index"@)) || (
        collection && occurs_at(text, i, ":collection"@)) || is_stray(text, i)
}

/// A template whose colons are those of its placeholders, but for stray
/// ones.
pub open spec fn is_template(template: Seq<char>) -> bool {
    colons_marked(template, true, true)
}

/// The shape of the two placeholders: a colon, then a name without colon
/// that starts with `i` or with `c`.
proof fn lemma_tokens()
    ensures
        ":index"@.len() == 6,
        ":index"@[0] == ':',
        ":index"@[1] == 'i',
        forall|j: int| 1 <= j < 6 ==> ":index"@[j] != ':',
        ":collection"@.len() == 11,
        ":collection"@[0] == ':',
        ":collection"@[1] == 'c',
        forall|j: int| 1 <= j < 11 ==> ":collection"@[j] != ':',
{
    reveal_strlit(":index");
    reveal_strlit(":collection");
}

/// A replacement of a token that starts with a colon leaves the characters
/// before the first colon of the text as they are.
proof fn lemma_prefix_kept(text: Seq<char>, token: Seq<char>, with: Seq<char>, k: int)
    requires
        token.len() > 0,
        token[0] == ':',
        0 <= k <= text.len(),
        forall|j: int| 0 <= j < k ==> text[j] != ':',
    ensures
        replaced(text, token, with).len() >= k,
        forall|j: int| 0 <= j < k ==> replaced(text, token, with)[j] == text[j],
    decreases k,
{
    if k > 0 {
        assert(!occurs_at(text, 0, token)) by {
            if occurs_at(text, 0, token) {
                assert(text.subrange(0, token.len() as int)[0] == token[0]);
            }
        }
        let rest = text.skip(1);
        assert forall|j: int| 0 <= j < k - 1 implies rest[j] != ':' by {
            assert(rest[j] == text[j + 1]);
        }
        lemma_prefix_kept(rest, token, with, k - 1);
        let out = replaced(text, token, with);
        assert(out == seq![text[0]] + replaced(rest, token, with));
        assert forall|j: int| 0 <= j < k implies out[j] == text[j] by {
            if j > 0 {
                assert(out[j] == replaced(rest, token, with)[j - 1]);
                assert(rest[j - 1] == text[j]);
            }
        }
    }
}

/// What holds of the colons of a text holds of those of each of its ends.
proof fn lemma_marked_suffix(text: Seq<char>, from: int, index: bool, collection: bool)
    requires
        colons_marked(text, index, collection),
        0 <= from <= text.len(),
    ensures
        colons_marked(text.skip(from), index, collection),
{
    let rest = text.skip(from);
    assert forall|i: int| 0 <= i < rest.len() && rest[i] == ':' implies (index && occurs_at(
        rest,
        i,
        ":index"@,
    )) || (collection && occurs_at(rest, i, ":collection"@)) || is_stray(rest, i) by {
        assert(text[from + i] == ':');
        if index && occurs_at(text, from + i, ":index"@) {
            assert(rest.subrange(i, i + ":index"@.len()) =~= text.subrange(
                from + i,
                from + i + ":index"@.len(),
            ));
        } else if collection && occurs_at(text, from + i, ":collection"@) {
            assert(rest.subrange(i, i + ":collection"@.len()) =~= text.subrange(
                from + i,
                from + i + ":collection"@.len(),
            ));
        } else {
            assert(is_stray(text, from + i));
            if from + i + 1 < text.len() {
                assert(rest[i + 1] == text[from + i + 1]);
            }
        }
    }
}

/// What holds of the colons of a text holds of those of the text behind a
/// plain text.
proof fn lemma_marked_behind(head: Seq<char>, tail: Seq<char>, index: bool, collection: bool)
    requires
        is_plain(head),
        colons_marked(tail, index, collection),
    ensures
        colons_marked(head + tail, index, collection),
{
    let text = head + tail;
    let n = head.len() as int;
    assert forall|i: int| 0 <= i < text.len() && text[i] == ':' implies (index && occurs_at(
        text,
        i,
        ":index"@,
    )) || (collection && occurs_at(text, i, ":collection"@)) || is_stray(text, i) by {
        assert(i >= n);
        assert(tail[i - n] == ':');
        if index && occurs_at(tail, i - n, ":index"@) {
            assert(text.subrange(i, i + ":index"@.len()) =~= tail.subrange(
                i - n,
                i - n + ":index"@.len(),
            ));
        } else if collection && occurs_at(tail, i - n, ":collection"@) {
            assert(text.subrange(i, i + ":collection"@.len()) =~= tail.subrange(
                i - n,
                i - n + ":collection"@.len(),
            ));
        } else {
            assert(is_stray(tail, i - n));
            if i - n + 1 < tail.len() {
                assert(text[i + 1] == tail[i - n + 1]);
            }
        }
    }
}

/// A name that stands at the start of a text, and holds no colon but its
/// first character, still stands there when a token that starts with a
/// colon is replaced behind that first character.
proof fn lemma_name_kept(text: Seq<char>, name: Seq<char>, token: Seq<char>, with: Seq<char>)
    requires
        name.len() > 0,
        occurs_at(text, 0, name),
        forall|j: int| 1 <= j < name.len() ==> name[j] != ':',
        token.len() > 0,
        token[0] == ':',
    ensures
        occurs_at(seq![text[0]] + replaced(text.skip(1), token, with), 0, name),
{
    let n = name.len() as int;
    let rest = text.skip(1);
    let made = replaced(rest, token, with);
    let out = seq![text[0]] + made;
    assert forall|j: int| 0 <= j < n implies text[j] == name[j] by {
        assert(text.subrange(0, n)[j] == name[j]);
    }
    assert forall|j: int| 0 <= j < n - 1 implies rest[j] != ':' by {
        assert(rest[j] == text[j + 1]);
    }
    lemma_prefix_kept(rest, token, with, n - 1);
    assert forall|j: int| 0 <= j < n implies out.subrange(0, n)[j] == name[j] by {
        if j > 0 {
            assert(out[j] == made[j - 1]);
            assert(rest[j - 1] == text[j]);
        }
    }
    assert(out.subrange(0, n) =~= name);
}

/// A stray colon at the start of a text is still stray when a token that
/// starts with a colon is replaced behind it.
proof fn lemma_stray_kept(text: Seq<char>, token: Seq<char>, with: Seq<char>)
    requires
        text.len() > 0,
        is_stray(text, 0),
        token.len() > 0,
        token[0] == ':',
    ensures
        is_stray(seq![text[0]] + replaced(text.skip(1), token, with), 0),
{
    let rest = text.skip(1);
    let made = replaced(rest, token, with);
    let out = seq![text[0]] + made;
    if text.len() == 1 {
        assert(rest.len() == 0);
        assert(made =~= rest);
    } else {
        assert(rest[0] == text[1]);
        lemma_prefix_kept(rest, token, with, 1);
        assert(out[1] == made[0]);
    }
}

/// The first character of a text with marked colons keeps its mark in
/// front of what a replacement makes of the rest, where the token replaced
/// is another one than that which the character starts.
proof fn lemma_first_keeps_mark(
    text: Seq<char>,
    token: Seq<char>,
    with: Seq<char>,
    index: bool,
    collection: bool,
)
    requires
        text.len() > 0,
        token == ":index"@ || token == ":collection"@,
        !occurs_at(text, 0, token),
        (index && occurs_at(text, 0, ":index"@)) || (collection && occurs_at(
            text,
            0,
            ":collection"@,
        )) || is_stray(text, 0),
    ensures
        ({
            let out = seq![text[0]] + replaced(text.skip(1), token, with);
            (index && token != ":index"@ && occurs_at(out, 0, ":index"@)) || (collection && token
                != ":collection"@ && occurs_at(out, 0, ":collection"@)) || is_stray(out, 0)
        }),
{
    lemma_tokens();
    if index && occurs_at(text, 0, ":index"@) {
        lemma_name_kept(text, ":index"@, token, with);
    } else if collection && occurs_at(text, 0, ":collection"@) {
        lemma_name_kept(text, ":collection"@, token, with);
    } else {
        lemma_stray_kept(text, token, with);
    }
}

/// A replacement of a placeholder by a plain text leaves no colon that
/// starts this placeholder, and leaves the other colons marked as they
/// were.
proof fn lemma_replaced_marked(
    text: Seq<char>,
    token: Seq<char>,
    with: Seq<char>,
    index: bool,
    collection: bool,
)
    requires
        token == ":index"@ || token == ":collection"@,
        is_plain(with),
        colons_marked(text, index, collection),
    ensures
        colons_marked(
            replaced(text, token, with),
            index && token != ":index"@,
            collection && token != ":collection"@,
        ),
    decreases text.len(),
{
    lemma_tokens();
    let left = index && token != ":index"@;
    let right = collection && token != ":collection"@;
    if text.len() == 0 {
    } else if occurs_at(text, 0, token) {
        let rest = text.skip(token.len() as int);
        lemma_marked_suffix(text, token.len() as int, index, collection);
        lemma_replaced_marked(rest, token, with, index, collection);
        lemma_marked_behind(with, replaced(rest, token, with), left, right);
    } else {
        let rest = text.skip(1);
        let made = replaced(rest, token, with);
        let out = seq![text[0]] + made;
        lemma_marked_suffix(text, 1, index, collection);
        lemma_replaced_marked(rest, token, with, index, collection);
        assert forall|i: int| 0 <= i < out.len() && out[i] == ':' implies (left && occurs_at(
            out,
            i,
            ":index"@,
        )) || (right && occurs_at(out, i, ":collection"@)) || is_stray(out, i) by {
            if i == 0 {
                lemma_first_keeps_mark(text, token, with, index, collection);
            } else {
                assert(made[i - 1] == ':');
                if left && occurs_at(made, i - 1, ":index"@) {
                    assert(out.subrange(i, i + ":index"@.len()) =~= made.subrange(
                        i - 1,
                        i - 1 + ":index"@.len(),
                    ));
                } else if right && occurs_at(made, i - 1, ":collection"@) {
                    assert(out.subrange(i, i + ":collection"@.len()) =~= made.subrange(
                        i - 1,
                        i - 1 + ":collection"@.len(),
                    ));
                } else {
                    assert(is_stray(made, i - 1));
                    if i < made.len() {
                        assert(out[i + 1] == made[i]);
                    }
                }
            }
        }
    }
}

/// No placeholder is left in a resolved path: where the colons of the
/// template are those of its placeholders, but for stray ones, and the
/// index and the collection hold no colon, neither `:index` nor
/// `:collection` stands anywhere in the path.
pub proof fn lemma_no_placeholder_remains(
    template: Seq<char>,
    index: Option<Seq<char>>,
    collection: Option<Seq<char>>,
)
    requires
        is_template(template),
        is_plain(or_empty(index)),
        is_plain(or_empty(collection)),
    ensures
        !occurs_in(resolved_path(template, index, collection), ":index"@),
        !occurs_in(resolved_path(template, index, collection), ":collection"@),
{
    lemma_tokens();
    let first = replaced(template, ":index"@, or_empty(index));
    lemma_replaced_marked(template, ":index"@, or_empty(index), true, true);
    lemma_replaced_marked(first, ":collection"@, or_empty(collection), false, true);
    let path = resolved_path(template, index, collection);
    assert(colons_marked(path, false, false));
    assert forall|at: int| !occurs_at(path, at, ":index"@) by {
        if occurs_at(path, at, ":index"@) {
            assert(path.subrange(at, at + 6)[0] == ':');
            assert(path.subrange(at, at + 6)[1] == 'i');
            assert(path[at] == ':' && path[at + 1] == 'i');
            assert(is_stray(path, at));
        }
    }
    assert forall|at: int| !occurs_at(path, at, ":collection"@) by {
        if occurs_at(path, at, ":collection"@) {
            assert(path.subrange(at, at + 11)[0] == ':');
            assert(path.subrange(at, at + 11)[1] == 'c');
            assert(path[at] == ':' && path[at + 1] == 'c');
            assert(is_stray(path, at));
        }
    }
}

} // verus!
