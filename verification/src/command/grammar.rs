use crate::command::help::{
    capped, closing, commands_of, lines, map_of, parse_arguments, schema_of, ArgumentView,
    SchemaView,
};
use crate::text::{find_char, find_pair, lemma_find_char_at, lemma_find_pair_at};
use vstd::prelude::*;

verus! {

/// One item of the argument text of a grammar line.
pub enum GrammarItem {
    /// A word to be written as it stands.
    Word(Seq<char>),
    /// `<key: type>`: an argument that must be given.
    Required(Seq<char>, Seq<char>),
    /// `[key: type]`: an argument that may be left out.
    Optional(Seq<char>, Seq<char>),
}

/// The text of a typed item: the key and the type between two brackets,
/// with `": "` between them.
pub open spec fn typed_text(open: char, key: Seq<char>, kind: Seq<char>) -> Seq<char> {
    seq![open] + key + seq![':', ' '] + kind + seq![closing(open)]
}

impl GrammarItem {
    /// The text of the item.
    pub open spec fn text(self) -> Seq<char> {
        match self {
            GrammarItem::Word(word) => word,
            GrammarItem::Required(key, kind) => typed_text('<', key, kind),
            GrammarItem::Optional(key, kind) => typed_text('[', key, kind),
        }
    }

    /// The key of the item and the argument it stands for.
    pub open spec fn entry(self) -> (Seq<char>, ArgumentView) {
        match self {
            GrammarItem::Word(word) => (word, ArgumentView::Literal),
            GrammarItem::Required(key, kind) => (key, ArgumentView::Required(kind)),
            GrammarItem::Optional(key, kind) => (key, ArgumentView::Optional(kind)),
        }
    }

    /// Whether the item is written so that it is read as it stands: a word
    /// is not empty, holds no space and begins with no opening bracket; a
    /// key holds no colon, and neither key nor type the closing bracket.
    pub open spec fn well_formed(self) -> bool {
        match self {
            GrammarItem::Word(word) => {
                &&& word.len() > 0
                &&& word[0] != '<'
                &&& word[0] != '['
                &&& forall|j: int| 0 <= j < word.len() ==> word[j] != ' '
            },
            GrammarItem::Required(key, kind) => {
                &&& forall|j: int| 0 <= j < key.len() ==> key[j] != ':' && key[j] != '>'
                &&& forall|j: int| 0 <= j < kind.len() ==> kind[j] != '>'
            },
            GrammarItem::Optional(key, kind) => {
                &&& forall|j: int| 0 <= j < key.len() ==> key[j] != ':' && key[j] != ']'
                &&& forall|j: int| 0 <= j < kind.len() ==> kind[j] != ']'
            },
        }
    }
}

/// The argument text of a sequence of items: their texts with one space
/// between each two.
pub open spec fn args_text(items: Seq<GrammarItem>) -> Seq<char>
    decreases items.len(),
{
    if items.len() == 0 {
        Seq::empty()
    } else if items.len() == 1 {
        items[0].text()
    } else {
        items[0].text() + seq![' '] + args_text(items.drop_first())
    }
}

/// The entries that a sequence of items stands for, in order.
pub open spec fn entries_of(items: Seq<GrammarItem>) -> Seq<(Seq<char>, ArgumentView)> {
    Seq::new(items.len(), |i: int| items[i].entry())
}

/// The grammar line of a command: a slash, the command's name, a space and
/// the argument text.
pub open spec fn grammar_line(name: Seq<char>, items: Seq<GrammarItem>) -> Seq<char> {
    seq!['/'] + name + seq![' '] + args_text(items)
}

/// Where the parts of a typed item stand in its text.
pub proof fn lemma_typed_text(open: char, key: Seq<char>, kind: Seq<char>)
    ensures
        typed_text(open, key, kind).len() == key.len() + kind.len() + 4,
        typed_text(open, key, kind)[0] == open,
        forall|j: int| 0 <= j < key.len() ==> typed_text(open, key, kind)[1 + j] == key[j],
        typed_text(open, key, kind)[1 + key.len() as int] == ':',
        typed_text(open, key, kind)[2 + key.len() as int] == ' ',
        forall|j: int|
            0 <= j < kind.len() ==> typed_text(open, key, kind)[3 + key.len() + j] == kind[j],
        typed_text(open, key, kind)[3 + key.len() as int + kind.len() as int] == closing(open),
{
}

/// An argument text that stands at the end of a line is read as the
/// entries of its items, in order.
pub proof fn lemma_parse_items(s: Seq<char>, pos: int, items: Seq<GrammarItem>)
    requires
        0 <= pos <= s.len(),
        s.subrange(pos, s.len() as int) == args_text(items),
        forall|i: int| 0 <= i < items.len() ==> (#[trigger] items[i]).well_formed(),
    ensures
        parse_arguments(s, pos) == Some(entries_of(items)),
    decreases items.len(),
{
    let whole = s.subrange(pos, s.len() as int);
    if items.len() == 0 {
        assert(whole.len() == 0);
        assert(entries_of(items) =~= Seq::empty());
    } else {
        let first = items[0];
        let rest = items.drop_first();
        let text = first.text();
        let end = pos + text.len();
        assert(first.well_formed());
        assert forall|i: int| 0 <= i < rest.len() implies (#[trigger] rest[i]).well_formed() by {
            assert(rest[i] == items[i + 1]);
        }
        match first {
            GrammarItem::Word(_) => {},
            GrammarItem::Required(key, kind) => {
                lemma_typed_text('<', key, kind);
            },
            GrammarItem::Optional(key, kind) => {
                lemma_typed_text('[', key, kind);
            },
        }
        assert(text.len() > 0);
        if items.len() == 1 {
            assert(whole == text);
            assert(args_text(rest) =~= Seq::<char>::empty());
        } else {
            assert(whole == text + seq![' '] + args_text(rest));
            let tail = args_text(rest);
            assert(whole.len() == text.len() + 1 + tail.len());
            assert(whole[text.len() as int] == ' ');
            assert(s.subrange(end + 1, s.len() as int) =~= tail) by {
                assert forall|j: int| 0 <= j < tail.len() implies s[end + 1 + j] == tail[j] by {
                    assert(whole[text.len() + 1 + j] == s[pos + (text.len() + 1 + j)]);
                    assert(whole[text.len() + 1 + j] == tail[j]);
                }
            }
        }
        assert(end <= s.len());
        assert(items.len() == 1 ==> end == s.len());
        assert(items.len() > 1 ==> end < s.len() && s[end] == ' ');
        assert forall|j: int| 0 <= j < text.len() implies s[pos + j] == text[j] by {
            assert(whole[j] == s[pos + j]);
        }
        let next = if items.len() == 1 {
            s.len() as int
        } else {
            end + 1
        };
        assert(s.subrange(next, s.len() as int) =~= args_text(rest));
        lemma_parse_items(s, next, rest);
        assert(seq![first.entry()] + entries_of(rest) =~= entries_of(items)) by {
            assert forall|i: int| 0 <= i < items.len() implies (seq![first.entry()]
                + entries_of(rest))[i] == entries_of(items)[i] by {
                if i > 0 {
                    assert(rest[i - 1] == items[i]);
                }
            }
        }
        match first {
            GrammarItem::Word(word) => {
                assert(s[pos] == word[0]);
                assert forall|j: int| pos + 1 <= j < end implies s[j] != ' ' by {
                    assert(s[pos + (j - pos)] == word[j - pos]);
                }
                lemma_find_char_at(s, ' ', pos + 1, end);
                assert(s.subrange(pos, end) =~= word);
                assert(capped(end + 1, s.len() as int) == next);
            },
            GrammarItem::Required(key, kind) => {
                lemma_typed_item(s, pos, '<', key, kind, next, items.len() == 1);
            },
            GrammarItem::Optional(key, kind) => {
                lemma_typed_item(s, pos, '[', key, kind, next, items.len() == 1);
            },
        }
    }
}

/// What reading finds where a typed item stands at a position: its closing
/// bracket, the colon after its key, its key and its type, and the position
/// at which reading goes on.
pub proof fn lemma_typed_item(
    s: Seq<char>,
    pos: int,
    open: char,
    key: Seq<char>,
    kind: Seq<char>,
    next: int,
    last: bool,
)
    requires
        open == '<' || open == '[',
        0 <= pos,
        pos + typed_text(open, key, kind).len() <= s.len(),
        forall|j: int|
            0 <= j < typed_text(open, key, kind).len() ==> s[pos + j] == typed_text(
                open,
                key,
                kind,
            )[j],
        forall|j: int| 0 <= j < key.len() ==> key[j] != ':' && key[j] != closing(open),
        forall|j: int| 0 <= j < kind.len() ==> kind[j] != closing(open),
        last ==> pos + typed_text(open, key, kind).len() == s.len() && next == s.len(),
        !last ==> pos + typed_text(open, key, kind).len() < s.len() && next == pos + typed_text(
            open,
            key,
            kind,
        ).len() + 1,
    ensures
        ({
            let stop = find_char(s, closing(s[pos]), pos + 1);
            let colon = find_pair(s, ':', ' ', pos + 1, stop);
            &&& s[pos] == open
            &&& colon < stop
            &&& s.subrange(pos + 1, colon) == key
            &&& s.subrange(colon + 2, stop) == kind
            &&& capped(stop + 2, s.len() as int) == next
        }),
{
    lemma_typed_text(open, key, kind);
    let text = typed_text(open, key, kind);
    let colon = pos + 1 + key.len();
    let stop = pos + 3 + key.len() + kind.len();
    assert(s[pos + 0] == text[0]);
    assert(s[pos] == open);
    assert(s[pos + (1 + key.len() as int)] == text[1 + key.len() as int]);
    assert(s[pos + (2 + key.len() as int)] == text[2 + key.len() as int]);
    assert(s[pos + (3 + key.len() as int + kind.len() as int)] == text[3 + key.len() as int
        + kind.len() as int]);
    assert forall|j: int| 0 <= j < key.len() implies s[pos + 1 + j] == key[j] by {
        assert(s[pos + (1 + j)] == text[1 + j]);
    }
    assert forall|j: int| 0 <= j < kind.len() implies s[colon + 2 + j] == kind[j] by {
        assert(s[pos + (3 + key.len() + j)] == text[3 + key.len() + j]);
    }
    assert forall|j: int| pos + 1 <= j < stop implies s[j] != closing(open) by {
        if j < colon {
            assert(s[pos + 1 + (j - pos - 1)] == key[j - pos - 1]);
        } else if j >= colon + 2 {
            assert(s[colon + 2 + (j - colon - 2)] == kind[j - colon - 2]);
        }
    }
    lemma_find_char_at(s, closing(open), pos + 1, stop);
    assert forall|j: int| pos + 1 <= j < colon implies s[j] != ':' by {
        assert(s[pos + 1 + (j - pos - 1)] == key[j - pos - 1]);
    }
    lemma_find_pair_at(s, ':', ' ', pos + 1, stop, colon);
    assert(s.subrange(pos + 1, colon) =~= key);
    assert(s.subrange(colon + 2, stop) =~= kind);
}

/// A grammar line whose name holds no space and whose items are well formed
/// is read as the schema of that name, with the arguments that the items
/// stand for.
pub proof fn lemma_grammar_line(name: Seq<char>, items: Seq<GrammarItem>)
    requires
        forall|j: int| 0 <= j < name.len() ==> name[j] != ' ',
        forall|i: int| 0 <= i < items.len() ==> (#[trigger] items[i]).well_formed(),
    ensures
        schema_of(grammar_line(name, items)) == Some(
            SchemaView { name, arguments: map_of(entries_of(items)) },
        ),
{
    let line = grammar_line(name, items);
    let space: int = 1 + name.len() as int;
    assert(line[0] == '/');
    assert(line[space] == ' ');
    assert forall|j: int| 1 <= j < space implies line[j] != ' ' by {
        assert(line[j] == name[j - 1]);
    }
    lemma_find_char_at(line, ' ', 1, space);
    assert(line.subrange(1, space) =~= name);
    assert(line.subrange(space + 1, line.len() as int) =~= args_text(items));
    lemma_parse_items(line, space + 1, items);
}

/// The schema of every line that holds one is among the schemas listed.
pub proof fn lemma_schema_is_listed(all: Seq<Seq<char>>, k: int)
    requires
        0 <= k < all.len(),
        schema_of(all[k]) is Some,
    ensures
        exists|i: int|
            0 <= i < commands_of(all).len() && #[trigger] commands_of(all)[i] == schema_of(
                all[k],
            )->0,
    decreases all.len(),
{
    let before = commands_of(all.drop_last());
    if k == all.len() - 1 {
        assert(commands_of(all)[before.len() as int] == schema_of(all[k])->0);
    } else {
        lemma_schema_is_listed(all.drop_last(), k);
        let i = choose|i: int|
            0 <= i < before.len() && #[trigger] before[i] == schema_of(all.drop_last()[k])->0;
        assert(commands_of(all)[i] == before[i]);
    }
}

/// An argument list holds under a key the argument of the entry so keyed
/// after which no entry has that key.
pub proof fn lemma_map_of_at(entries: Seq<(Seq<char>, ArgumentView)>, at: int)
    requires
        0 <= at < entries.len(),
        forall|j: int| at < j < entries.len() ==> entries[j].0 != entries[at].0,
    ensures
        map_of(entries).dom().contains(entries[at].0),
        map_of(entries)[entries[at].0] == entries[at].1,
    decreases entries.len(),
{
    if at < entries.len() - 1 {
        lemma_map_of_at(entries.drop_last(), at);
    }
}

/// A page of help that holds a grammar line lists the command of that
/// line: the list is not empty, and holds a schema with the name of the
/// line and, for its arguments, what the items of the line stand for. Each
/// item whose key no later item has is found under its key: a word as a
/// literal, `<key: type>` as required and `[key: type]` as optional, each
/// with its type.
pub proof fn lemma_help_page_lists_its_grammar_lines(
    body: Seq<char>,
    k: int,
    name: Seq<char>,
    items: Seq<GrammarItem>,
)
    requires
        0 <= k < lines(body, 0).len(),
        lines(body, 0)[k] == grammar_line(name, items),
        forall|j: int| 0 <= j < name.len() ==> name[j] != ' ',
        forall|i: int| 0 <= i < items.len() ==> (#[trigger] items[i]).well_formed(),
    ensures
        commands_of(lines(body, 0)).len() > 0,
        exists|i: int|
            0 <= i < commands_of(lines(body, 0)).len() && #[trigger] commands_of(
                lines(body, 0),
            )[i] == (SchemaView { name, arguments: map_of(entries_of(items)) }),
        forall|at: int|
            0 <= at < items.len() && (forall|j: int|
                at < j < items.len() ==> items[j].entry().0 != items[at].entry().0) ==> map_of(
                entries_of(items),
            ).dom().contains(#[trigger] items[at].entry().0) && map_of(
                entries_of(items),
            )[items[at].entry().0] == items[at].entry().1,
{
    lemma_grammar_line(name, items);
    lemma_schema_is_listed(lines(body, 0), k);
    assert forall|at: int|
        0 <= at < items.len() && (forall|j: int|
            at < j < items.len() ==> items[j].entry().0 != items[at].entry().0) implies map_of(
        entries_of(items),
    ).dom().contains(#[trigger] items[at].entry().0) && map_of(
        entries_of(items),
    )[items[at].entry().0] == items[at].entry().1 by {
        lemma_map_of_at(entries_of(items), at);
    }
}

} // verus!
