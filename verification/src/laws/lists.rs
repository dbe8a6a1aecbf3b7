//! What the lists find.

use crate::compose::{command_words, ComposeCommand};
use crate::containers::summary::{
    query_labels, query_tokens, ContainerModel, ContainerState, Port,
};
use crate::text;
use vstd::prelude::*;

verus! {

/* ---------------- containers ---------------- */

/// No word of a query asks for a label.
pub open spec fn without_label_words(words: Seq<Seq<char>>) -> bool {
    forall|i: int| 0 <= i < words.len() ==> (#[trigger] words[i]).len() > 0 && words[i][0] != '@'
}

/// A text holds each of some words, whatever the case of the letters.
pub open spec fn holds_all(t: Seq<char>, words: Seq<Seq<char>>) -> bool {
    forall|i: int|
        0 <= i < words.len() ==> text::holds(
            text::lowercase(t),
            text::lowercase(#[trigger] words[i]),
        )
}

proof fn plain_words(words: Seq<Seq<char>>)
    requires
        without_label_words(words),
    ensures
        query_labels(words).len() == 0,
        query_tokens(words).len() == words.len(),
        forall|i: int|
            0 <= i < words.len() ==> #[trigger] query_tokens(words)[i] == text::lowercase(words[i]),
    decreases words.len(),
{
    reveal_strlit("@");
    if words.len() > 0 {
        let m = words.drop_last();
        assert forall|i: int| 0 <= i < m.len() implies (#[trigger] m[i]).len() > 0 && m[i][0]
            != '@' by {
            assert(m[i] == words[i]);
        }
        plain_words(m);
        let w = words[words.len() - 1];
        assert(w.len() > 0 && w[0] != '@');
        if text::begins(w, "@"@) {
            assert(w.subrange(0, 1)[0] == w[0]);
        }
        assert forall|i: int| 0 <= i < words.len() implies #[trigger] query_tokens(words)[i]
            == text::lowercase(words[i]) by {
            if i < m.len() {
                assert(query_tokens(words)[i] == query_tokens(m)[i]);
            }
        }
    }
}

/// A container is found by its image alone.
pub proof fn found_by_image(c: ContainerModel, image: Seq<char>, words: Seq<Seq<char>>)
    requires
        c.image == Some(image),
        without_label_words(words),
        holds_all(image, words),
    ensures
        c.matches(query_tokens(words), query_labels(words)),
{
    plain_words(words);
    assert forall|i: int| 0 <= i < query_tokens(words).len() implies text::holds(
        text::lowercase(image),
        #[trigger] query_tokens(words)[i],
    ) by {
        assert(text::holds(text::lowercase(image), text::lowercase(words[i])));
    }
}

/// A container is found by its first name alone.
pub proof fn found_by_name(c: ContainerModel, names: Seq<Seq<char>>, words: Seq<Seq<char>>)
    requires
        c.names == Some(names),
        names.len() > 0,
        without_label_words(words),
        holds_all(names[0], words),
    ensures
        c.matches(query_tokens(words), query_labels(words)),
{
    plain_words(words);
    assert forall|i: int| 0 <= i < query_tokens(words).len() implies text::holds(
        text::lowercase(names[0]),
        #[trigger] query_tokens(words)[i],
    ) by {
        assert(text::holds(text::lowercase(names[0]), text::lowercase(words[i])));
    }
}

/// What a state is called.
pub open spec fn state_name(s: ContainerState) -> Seq<char> {
    match s {
        ContainerState::Empty => "EMPTY"@,
        ContainerState::Created => "CREATED"@,
        ContainerState::Running => "RUNNING"@,
        ContainerState::Paused => "PAUSED"@,
        ContainerState::Restarting => "RESTARTING"@,
        ContainerState::Exited => "EXITED"@,
        ContainerState::Removing => "REMOVING"@,
        ContainerState::Dead => "DEAD"@,
    }
}

/// A container is found by its state alone.
pub proof fn found_by_state(c: ContainerModel, s: ContainerState, words: Seq<Seq<char>>)
    requires
        c.state == Some(s),
        without_label_words(words),
        holds_all(state_name(s), words),
    ensures
        c.matches(query_tokens(words), query_labels(words)),
{
    plain_words(words);
    assert forall|i: int| 0 <= i < query_tokens(words).len() implies text::holds(
        text::lowercase(state_name(s)),
        #[trigger] query_tokens(words)[i],
    ) by {
        assert(text::holds(text::lowercase(state_name(s)), text::lowercase(words[i])));
    }
}

/// A TCP port as it is shown: the public one, an arrow, and the private one.
pub open spec fn tcp_text(public: nat, private: nat) -> Seq<char> {
    text::decimal(public) + "->"@ + (text::decimal(private) + "/"@ + "TCP"@)
}

/// A container is found by its ports alone.
pub proof fn found_by_ports(
    c: ContainerModel,
    public: u16,
    private: u16,
    words: Seq<Seq<char>>,
)
    requires
        public > 0,
        c.ports == Some(
            seq![
                Port {
                    private_port: private,
                    public_port: Some(public),
                    typ: Some(crate::containers::summary::PortType::Tcp),
                },
            ],
        ),
        without_label_words(words),
        holds_all(tcp_text(public as nat, private as nat), words),
    ensures
        c.matches(query_tokens(words), query_labels(words)),
{
    plain_words(words);
    let t = tcp_text(public as nat, private as nat);
    assert(c.ports_text("  "@) == t);
    assert forall|i: int| 0 <= i < query_tokens(words).len() implies text::holds(
        text::lowercase(t),
        #[trigger] query_tokens(words)[i],
    ) by {
        assert(text::holds(text::lowercase(t), text::lowercase(words[i])));
    }
}

/// A container none of whose texts holds a word of the query is not found.
pub proof fn not_found_by_other_words(
    c: ContainerModel,
    image: Seq<char>,
    name: Seq<char>,
    s: ContainerState,
    words: Seq<Seq<char>>,
    k: int,
)
    requires
        c.image == Some(image),
        c.names == Some(seq![name]),
        c.state == Some(s),
        c.ports is None,
        without_label_words(words),
        0 <= k < words.len(),
        text::lowercase(words[k]).len() > 0,
        !text::holds(text::lowercase(image), text::lowercase(words[k])),
        !text::holds(text::lowercase(name), text::lowercase(words[k])),
        !text::holds(text::lowercase(state_name(s)), text::lowercase(words[k])),
    ensures
        !c.matches(query_tokens(words), query_labels(words)),
{
    plain_words(words);
    assert(query_tokens(words)[k] == text::lowercase(words[k]));
    let none = Seq::<char>::empty();
    assert(!text::holds(none, text::lowercase(words[k]))) by {
        if text::holds(none, text::lowercase(words[k])) {
            let i = choose|i: int| #[trigger] text::occurs_at(none, text::lowercase(words[k]), i);
            assert(false);
        }
    }
}

/// `@key=value` finds the containers with a label whose key and value hold these, and no other
/// ones; `@key` goes by the key alone.
pub proof fn found_by_label(
    c: ContainerModel,
    labels: Seq<(Seq<char>, Seq<char>)>,
    key: Seq<char>,
    value: Seq<char>,
)
    requires
        c.labels == Some(labels),
        !key.contains('='),
    ensures
        ({
            let w = seq![seq!['@'] + key + seq!['='] + value];
            c.matches(query_tokens(w), query_labels(w)) <==> exists|j: int|
                0 <= j < labels.len() && text::holds(
                    text::lowercase((#[trigger] labels[j]).0),
                    text::lowercase(key),
                ) && text::holds(text::lowercase(labels[j].1), text::lowercase(value))
        }),
        ({
            let w = seq![seq!['@'] + key];
            c.matches(query_tokens(w), query_labels(w)) <==> exists|j: int|
                0 <= j < labels.len() && text::holds(
                    text::lowercase((#[trigger] labels[j]).0),
                    text::lowercase(key),
                )
        }),
{
    let word = seq!['@'] + key + seq!['='] + value;
    one_label_word(word);
    assert(word.skip(1) == key + seq!['='] + value);
    index_behind(key, value);
    let rest = key + seq!['='] + value;
    assert(rest.take(key.len() as int) == key);
    assert(rest.skip((key.len() + 1) as int) == value);
    let short = seq!['@'] + key;
    one_label_word(short);
    assert(short.skip(1) == key);
    no_index(key);
    let low = crate::containers::summary::lower_labels(labels);
    let f = (text::lowercase(key), Some(text::lowercase(value)));
    let g = (text::lowercase(key), None::<Seq<char>>);
    assert(query_labels(seq![word]) == seq![f]);
    assert(query_labels(seq![short]) == seq![g]);
    assert(seq![f][0] == f && seq![g][0] == g);
    assert forall|j: int| 0 <= j < labels.len() implies #[trigger] low[j] == (
        text::lowercase(labels[j].0),
        text::lowercase(labels[j].1),
    ) by {}
    if exists|j: int|
        0 <= j < labels.len() && text::holds(
            text::lowercase((#[trigger] labels[j]).0),
            text::lowercase(key),
        ) && text::holds(text::lowercase(labels[j].1), text::lowercase(value)) {
        let j = choose|j: int|
            0 <= j < labels.len() && text::holds(
                text::lowercase((#[trigger] labels[j]).0),
                text::lowercase(key),
            ) && text::holds(text::lowercase(labels[j].1), text::lowercase(value));
        assert(crate::containers::summary::label_fits(low[j], f));
    }
    if exists|j: int|
        0 <= j < labels.len() && text::holds(
            text::lowercase((#[trigger] labels[j]).0),
            text::lowercase(key),
        ) {
        let j = choose|j: int|
            0 <= j < labels.len() && text::holds(
                text::lowercase((#[trigger] labels[j]).0),
                text::lowercase(key),
            );
        assert(crate::containers::summary::label_fits(low[j], g));
    }
    if c.matches(query_tokens(seq![word]), query_labels(seq![word])) {
        assert(crate::containers::summary::some_label_fits(low, seq![f][0]));
        let j = choose|j: int|
            0 <= j < low.len() && crate::containers::summary::label_fits(#[trigger] low[j], f);
        assert(labels[j] == labels[j]);
    }
    if c.matches(query_tokens(seq![short]), query_labels(seq![short])) {
        assert(crate::containers::summary::some_label_fits(low, seq![g][0]));
        let j = choose|j: int|
            0 <= j < low.len() && crate::containers::summary::label_fits(#[trigger] low[j], g);
        assert(labels[j] == labels[j]);
    }
}

proof fn one_label_word(word: Seq<char>)
    requires
        word.len() > 0,
        word[0] == '@',
    ensures
        query_tokens(seq![word]).len() == 0,
        query_labels(seq![word]) == seq![
            crate::containers::summary::label_filter(word.skip(1)),
        ],
{
    reveal_strlit("@");
    assert("@"@ == seq!['@']);
    let l = seq![word];
    assert(word.subrange(0, 1) == seq!['@']);
    assert(l.drop_last() == Seq::<Seq<char>>::empty());
    assert(l.last() == word);
    assert(query_labels(l.drop_last()).len() == 0);
    assert(query_tokens(l.drop_last()).len() == 0);
}

proof fn no_index(s: Seq<char>)
    requires
        !s.contains('='),
    ensures
        text::first_index(s, '=') is None,
    decreases s.len(),
{
    if s.len() > 0 {
        let m = s.drop_last();
        assert(!m.contains('=')) by {
            if m.contains('=') {
                let i = choose|i: int| 0 <= i < m.len() && m[i] == '=';
                assert(s[i] == '=');
            }
        }
        no_index(m);
        assert(s[s.len() - 1] != '=');
    }
}

proof fn index_behind(key: Seq<char>, value: Seq<char>)
    requires
        !key.contains('='),
    ensures
        text::first_index(key + seq!['='] + value, '=') == Some(key.len() as int),
    decreases value.len(),
{
    let s = key + seq!['='] + value;
    if value.len() == 0 {
        assert(s.drop_last() == key);
        no_index(key);
    } else {
        assert(s.drop_last() == key + seq!['='] + value.drop_last());
        index_behind(key, value.drop_last());
    }
}

/* ---------------- compose ---------------- */

/// Each command on a compose file is the one that its name says, and no two are the same.
pub proof fn commands_are_what_they_say(c: ComposeCommand, d: ComposeCommand)
    ensures
        c == ComposeCommand::Up ==> command_words(c) == seq![seq!['u', 'p'], seq!['-', 'd']],
        c == ComposeCommand::Down ==> command_words(c) == seq![seq!['d', 'o', 'w', 'n']],
        c == ComposeCommand::Ps ==> command_words(c) == seq![seq!['p', 's']],
        c == ComposeCommand::Logs ==> command_words(c)[0] == seq!['l', 'o', 'g', 's'],
        command_words(c) == command_words(d) ==> c == d,
{
    reveal_strlit("up");
    reveal_strlit("-d");
    reveal_strlit("down");
    reveal_strlit("ps");
    reveal_strlit("logs");
    assert("up"@ == seq!['u', 'p']);
    assert("-d"@ == seq!['-', 'd']);
    assert("down"@ == seq!['d', 'o', 'w', 'n']);
    assert("ps"@ == seq!['p', 's']);
    assert("logs"@ == seq!['l', 'o', 'g', 's']);
    assert(command_words(c)[0][0] == 'u' || command_words(c)[0][0] == 'd' || command_words(c)[0][0]
        == 'p' || command_words(c)[0][0] == 'l');
}

} // verus!
