use vstd::prelude::*;

verus! {

/// The escaped form of one character: `,` and `\` get a `\` before them.
pub open spec fn escape_char(c: char) -> Seq<char> {
    if c == ',' || c == '\\' {
        seq!['\\', c]
    } else {
        seq![c]
    }
}

/// The escaped form of a name.
pub open spec fn escape_name(name: Seq<char>) -> Seq<char>
    decreases name.len(),
{
    if name.len() == 0 {
        Seq::empty()
    } else {
        escape_name(name.drop_last()) + escape_char(name.last())
    }
}

/// The text in which a list of group names is stored: each escaped name followed by `,`.
/// Every list, the empty one and empty names included, reads back as itself.
pub open spec fn encode_names(names: Seq<Seq<char>>) -> Seq<char>
    decreases names.len(),
{
    if names.len() == 0 {
        Seq::empty()
    } else {
        encode_names(names.drop_last()) + escape_name(names.last()) + seq![',']
    }
}

/// Where reading a text stands: the names finished so far, the name being read, and
/// whether the last character was an escaping `\`.
pub type ReadState = (Seq<Seq<char>>, Seq<char>, bool);

/// The state at the start of a text.
pub open spec fn read_start() -> ReadState {
    (Seq::empty(), Seq::empty(), false)
}

/// Reading one more character.
pub open spec fn read_step(st: ReadState, c: char) -> ReadState {
    if st.2 {
        (st.0, st.1.push(c), false)
    } else if c == '\\' {
        (st.0, st.1, true)
    } else if c == ',' {
        (st.0.push(st.1), Seq::empty(), false)
    } else {
        (st.0, st.1.push(c), false)
    }
}

/// Reading the characters of `text` in order, from the state `st`.
pub open spec fn read_run(st: ReadState, text: Seq<char>) -> ReadState
    decreases text.len(),
{
    if text.len() == 0 {
        st
    } else {
        read_step(read_run(st, text.drop_last()), text.last())
    }
}

/// The names that `text` holds: `None` where it ends inside a name or after an escaping
/// `\`.
pub open spec fn decode_names(text: Seq<char>) -> Option<Seq<Seq<char>>> {
    let st = read_run(read_start(), text);
    if st.1.len() == 0 && !st.2 {
        Some(st.0)
    } else {
        None
    }
}

/// Reading two texts one after the other is reading their concatenation.
pub proof fn lemma_read_run_append(st: ReadState, a: Seq<char>, b: Seq<char>)
    ensures
        read_run(st, a + b) == read_run(read_run(st, a), b),
    decreases b.len(),
{
    if b.len() == 0 {
        assert(a + b =~= a);
    } else {
        lemma_read_run_append(st, a, b.drop_last());
        assert((a + b).drop_last() =~= a + b.drop_last());
        assert((a + b).last() == b.last());
    }
}

/// Reading an escaped name adds the name to the one being read.
pub proof fn lemma_read_escaped_name(names: Seq<Seq<char>>, cur: Seq<char>, name: Seq<char>)
    ensures
        read_run((names, cur, false), escape_name(name)) == (names, cur + name, false),
    decreases name.len(),
{
    if name.len() == 0 {
        assert(cur + name =~= cur);
    } else {
        let init = name.drop_last();
        let c = name.last();
        lemma_read_escaped_name(names, cur, init);
        lemma_read_run_append((names, cur, false), escape_name(init), escape_char(c));
        let mid: ReadState = (names, cur + init, false);
        let e = escape_char(c);
        assert(escape_name(name) == escape_name(init) + e);
        if c == ',' || c == '\\' {
            assert(e.drop_last() =~= seq!['\\']);
            assert(seq!['\\'].drop_last() =~= Seq::<char>::empty());
            assert(read_run(mid, Seq::<char>::empty()) == mid);
            assert(read_run(mid, seq!['\\']) == read_step(mid, '\\'));
            assert(read_run(mid, e) == read_step(read_step(mid, '\\'), c));
        } else {
            assert(e.drop_last() =~= Seq::<char>::empty());
            assert(read_run(mid, Seq::<char>::empty()) == mid);
            assert(e.last() == c);
            assert(read_run(mid, e) == read_step(mid, c));
        }
        assert((cur + init).push(c) =~= cur + name);
    }
}

/// Reading the text of a list of names gives back the list, with nothing left pending.
pub proof fn lemma_read_encoded(names: Seq<Seq<char>>)
    ensures
        read_run(read_start(), encode_names(names)) == (names, Seq::<char>::empty(), false),
    decreases names.len(),
{
    if names.len() > 0 {
        let init = names.drop_last();
        let last = names.last();
        lemma_read_encoded(init);
        let body = encode_names(init) + escape_name(last);
        assert(encode_names(names) == body + seq![',']);
        lemma_read_run_append(read_start(), body, seq![',']);
        lemma_read_run_append(read_start(), encode_names(init), escape_name(last));
        lemma_read_escaped_name(init, Seq::empty(), last);
        assert(Seq::<char>::empty() + last =~= last);
        let st = read_run(read_start(), body);
        assert(st == (init, last, false));
        assert(seq![','].drop_last() =~= Seq::<char>::empty());
        assert(read_run(st, Seq::<char>::empty()) == st);
        assert(read_run(st, seq![',']) == read_step(st, ','));
        assert(init.push(last) =~= names);
    }
}

/// Every list of names reads back as itself from its text.
pub proof fn lemma_names_round_trip(names: Seq<Seq<char>>)
    ensures
        decode_names(encode_names(names)) == Some(names),
{
    lemma_read_encoded(names);
}

} // verus!
