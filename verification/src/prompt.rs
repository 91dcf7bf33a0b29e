//! Prompt policy: whole-line keyword completion and conventional-commit type
//! hinting for the interactive message prompt, and the rule that turns one
//! transport read outcome into a submitted message or an abort.
use vstd::prelude::*;

verus! {

/// One completion candidate: the text shown in the completion menu and the
/// text inserted when the candidate is accepted. Both are always the full
/// keyword, and the insertion replaces the whole line.
pub struct Candidate {
    pub display: String,
    pub replacement: String,
}

/// The fixed vocabulary of language keywords offered by completion, in its
/// stable enumeration order.
pub open spec fn keyword_vocab() -> Seq<Seq<char>> {
    seq!["fn"@, "let"@, "mut"@, "struct"@, "enum"@, "impl"@, "for"@, "loop"@, "match"@]
}

/// The fixed vocabulary of change-type labels used for hinting, in its stable
/// enumeration order.
pub open spec fn label_vocab() -> Seq<Seq<char>> {
    seq!["feat"@, "fix"@, "docs"@, "style"@, "refactor"@, "perf"@, "test"@, "chore"@]
}

/// The words of `vocab` that `line` is a prefix of, kept in vocabulary order.
pub open spec fn matching_words(vocab: Seq<Seq<char>>, line: Seq<char>) -> Seq<Seq<char>>
    decreases vocab.len(),
{
    if vocab.len() == 0 {
        Seq::empty()
    } else {
        let rest = matching_words(vocab.drop_last(), line);
        if line.is_prefix_of(vocab.last()) {
            rest.push(vocab.last())
        } else {
            rest
        }
    }
}

/// The completion candidates for `line`: every keyword the whole line is a
/// prefix of, in vocabulary order. An empty line matches every keyword.
pub open spec fn completions_of(line: Seq<char>) -> Seq<Seq<char>> {
    matching_words(keyword_vocab(), line)
}

/// The keyword vocabulary as executable strings, matching `keyword_vocab`.
fn keyword_list() -> (words: Vec<&'static str>)
    ensures
        words@.len() == keyword_vocab().len(),
        forall|i: int| 0 <= i < words@.len() ==> (#[trigger] words@[i])@ == keyword_vocab()[i],
{
    let mut words: Vec<&'static str> = Vec::new();
    words.push("fn");
    words.push("let");
    words.push("mut");
    words.push("struct");
    words.push("enum");
    words.push("impl");
    words.push("for");
    words.push("loop");
    words.push("match");
    words
}

/// The label vocabulary as executable strings, matching `label_vocab`.
fn label_list() -> (words: Vec<&'static str>)
    ensures
        words@.len() == label_vocab().len(),
        forall|i: int| 0 <= i < words@.len() ==> (#[trigger] words@[i])@ == label_vocab()[i],
{
    let mut words: Vec<&'static str> = Vec::new();
    words.push("feat");
    words.push("fix");
    words.push("docs");
    words.push("style");
    words.push("refactor");
    words.push("perf");
    words.push("test");
    words.push("chore");
    words
}

/// Whether the characters of `line` are a prefix of the characters of `word`.
fn str_is_prefix_of(line: &str, word: &str) -> (r: bool)
    ensures
        r == line@.is_prefix_of(word@),
{
    let n: usize = line.unicode_len();
    let m: usize = word.unicode_len();
    if n > m {
        return false;
    }
    let mut i: usize = 0;
    while i < n
        invariant
            i <= n,
            n == line@.len(),
            m == word@.len(),
            n <= m,
            forall|j: int| 0 <= j < i ==> line@[j] == word@[j],
        decreases n - i,
    {
        if line.get_char(i) != word.get_char(i) {
            assert(!line@.is_prefix_of(word@)) by {
                assert(line@[i as int] != word@.subrange(0, line@.len() as int)[i as int]);
            }
            return false;
        }
        i = i + 1;
    }
    assert(line@ =~= word@.subrange(0, line@.len() as int));
    true
}

/// Completion policy: the candidates for the current input line are exactly
/// the keywords the whole line is a prefix of, each offered under its own
/// text, and the replacement always starts at position 0 so that accepting a
/// candidate replaces the whole line.
pub fn complete(line: &str) -> (r: (usize, Vec<Candidate>))
    ensures
        r.0 == 0,
        r.1@.len() == completions_of(line@).len(),
        forall|i: int| 0 <= i < r.1@.len() ==> (#[trigger] r.1@[i]).replacement@ == completions_of(
            line@,
        )[i] && r.1@[i].display@ == completions_of(line@)[i],
{
    let words = keyword_list();
    let mut out: Vec<Candidate> = Vec::new();
    let mut i: usize = 0;
    while i < words.len()
        invariant
            i <= words@.len(),
            words@.len() == keyword_vocab().len(),
            forall|j: int| 0 <= j < words@.len() ==> (#[trigger] words@[j])@ == keyword_vocab()[j],
            out@.len() == matching_words(keyword_vocab().take(i as int), line@).len(),
            forall|j: int| 0 <= j < out@.len() ==> (#[trigger] out@[j]).replacement@
                == matching_words(keyword_vocab().take(i as int), line@)[j]
                && out@[j].display@ == matching_words(keyword_vocab().take(i as int), line@)[j],
        decreases words@.len() - i,
    {
        proof {
            assert(keyword_vocab().take(i + 1).drop_last() =~= keyword_vocab().take(i as int));
            assert(keyword_vocab().take(i + 1).last() == keyword_vocab()[i as int]);
        }
        if str_is_prefix_of(line, words[i]) {
            out.push(
                Candidate {
                    display: String::from_str(words[i]),
                    replacement: String::from_str(words[i]),
                },
            );
        }
        i = i + 1;
    }
    proof {
        assert(keyword_vocab().take(keyword_vocab().len() as int) =~= keyword_vocab());
    }
    (0, out)
}

/// The index of the first word at or after position `i` of `vocab` that
/// `line` is a prefix of, or the vocabulary length when none matches.
pub open spec fn first_match_from(vocab: Seq<Seq<char>>, line: Seq<char>, i: int) -> int
    decreases vocab.len() - i when 0 <= i <= vocab.len()
{
    if i >= vocab.len() {
        vocab.len() as int
    } else if line.is_prefix_of(vocab[i]) {
        i
    } else {
        first_match_from(vocab, line, i + 1)
    }
}

/// The hint for the current input line: when the line is non-empty and is a
/// prefix of some hint label, the remaining characters of the first such
/// label in vocabulary order, followed by the literal ": " separator; the
/// empty string when the line is empty or matches no label.
pub open spec fn hint_of(line: Seq<char>) -> Seq<char> {
    if line.len() == 0 {
        Seq::empty()
    } else {
        let k = first_match_from(label_vocab(), line, 0);
        if k < label_vocab().len() {
            label_vocab()[k].skip(line.len() as int) + ": "@
        } else {
            Seq::empty()
        }
    }
}

/// The first match is no later than any match, it is itself a match when it
/// is in range, and nothing before it matches.
proof fn lemma_first_match_props(vocab: Seq<Seq<char>>, line: Seq<char>, i: int)
    requires
        0 <= i <= vocab.len(),
    ensures
        i <= first_match_from(vocab, line, i) <= vocab.len(),
        first_match_from(vocab, line, i) < vocab.len() ==> line.is_prefix_of(
            vocab[first_match_from(vocab, line, i)],
        ),
        forall|j: int| i <= j < first_match_from(vocab, line, i) ==> !line.is_prefix_of(
            #[trigger] vocab[j],
        ),
        forall|j: int| i <= j < vocab.len() && line.is_prefix_of(#[trigger] vocab[j])
            ==> first_match_from(vocab, line, i) <= j,
    decreases vocab.len() - i,
{
    if i < vocab.len() && !line.is_prefix_of(vocab[i]) {
        lemma_first_match_props(vocab, line, i + 1);
    }
}

/// Hint policy: on every keystroke, at most one hint, computed from the whole
/// line: the suffix of the first matching change-type label, with the ": "
/// separator; nothing for an empty line or when no label matches.
pub fn hint(line: &str) -> (r: String)
    ensures
        r@ == hint_of(line@),
{
    let mut out = String::new();
    let n: usize = line.unicode_len();
    if n == 0 {
        return out;
    }
    let words = label_list();
    let mut i: usize = 0;
    while i < words.len()
        invariant
            i <= words@.len(),
            n == line@.len(),
            n > 0,
            out@ == Seq::<char>::empty(),
            words@.len() == label_vocab().len(),
            forall|j: int| 0 <= j < words@.len() ==> (#[trigger] words@[j])@ == label_vocab()[j],
            forall|j: int| 0 <= j < i ==> !line@.is_prefix_of(#[trigger] label_vocab()[j]),
        decreases words@.len() - i,
    {
        if str_is_prefix_of(line, words[i]) {
            let word_len: usize = words[i].unicode_len();
            let suffix = words[i].substring_char(n, word_len);
            out.append(suffix);
            out.append(": ");
            proof {
                lemma_first_match_props(label_vocab(), line@, 0);
                assert(first_match_from(label_vocab(), line@, 0) == i);
                assert(suffix@ =~= label_vocab()[i as int].skip(line@.len() as int));
            }
            return out;
        }
        i = i + 1;
    }
    proof {
        lemma_first_match_props(label_vocab(), line@, 0);
        assert(first_match_from(label_vocab(), line@, 0) == label_vocab().len());
    }
    out
}

/// The hint rendered in a de-emphasized style: the text wrapped in the
/// terminal dim and reset escape sequences.
pub fn highlight_hint(hint_text: &str) -> (r: String)
    ensures
        r@ == "\u{1b}[2m"@ + hint_text@ + "\u{1b}[m"@,
{
    let mut out = String::from_str("\u{1b}[2m");
    out.append(hint_text);
    out.append("\u{1b}[m");
    out
}

/// Every vocabulary word that the line is a prefix of appears among the
/// matches.
proof fn lemma_matching_words_complete(vocab: Seq<Seq<char>>, line: Seq<char>, i: int)
    requires
        0 <= i < vocab.len(),
        line.is_prefix_of(vocab[i]),
    ensures
        matching_words(vocab, line).contains(vocab[i]),
    decreases vocab.len(),
{
    let rest = matching_words(vocab.drop_last(), line);
    if i == vocab.len() - 1 {
        assert(matching_words(vocab, line)[rest.len() as int] == vocab[i]);
    } else {
        lemma_matching_words_complete(vocab.drop_last(), line, i);
        let k = choose|k: int| 0 <= k < rest.len() && rest[k] == vocab.drop_last()[i];
        assert(matching_words(vocab, line)[k] == vocab[i]);
    }
}

/// Every match is a vocabulary word that the line is a prefix of.
proof fn lemma_matching_words_sound(vocab: Seq<Seq<char>>, line: Seq<char>)
    ensures
        forall|j: int|
            0 <= j < matching_words(vocab, line).len() ==> vocab.contains(
                #[trigger] matching_words(vocab, line)[j],
            ) && line.is_prefix_of(matching_words(vocab, line)[j]),
    decreases vocab.len(),
{
    if vocab.len() > 0 {
        lemma_matching_words_sound(vocab.drop_last(), line);
        let rest = matching_words(vocab.drop_last(), line);
        assert forall|j: int| 0 <= j < matching_words(vocab, line).len() implies vocab.contains(
            #[trigger] matching_words(vocab, line)[j],
        ) && line.is_prefix_of(matching_words(vocab, line)[j]) by {
            if j < rest.len() {
                let w = rest[j];
                let k = choose|k: int|
                    0 <= k < vocab.drop_last().len() && vocab.drop_last()[k] == w;
                assert(vocab[k] == w);
                assert(matching_words(vocab, line)[j] == w);
            } else {
                assert(matching_words(vocab, line)[j] == vocab.last());
                assert(vocab[vocab.len() - 1] == vocab.last());
            }
        }
    }
}

/// When the line is a prefix of no vocabulary word, nothing matches.
proof fn lemma_matching_words_none(vocab: Seq<Seq<char>>, line: Seq<char>)
    requires
        forall|i: int| 0 <= i < vocab.len() ==> !line.is_prefix_of(#[trigger] vocab[i]),
    ensures
        matching_words(vocab, line) =~= Seq::<Seq<char>>::empty(),
    decreases vocab.len(),
{
    if vocab.len() > 0 {
        assert(vocab.last() == vocab[vocab.len() - 1]);
        lemma_matching_words_none(vocab.drop_last(), line);
    }
}

/// Law: completing on any prefix of a known keyword yields a candidate whose
/// insertion text is that whole keyword; every candidate offered is a keyword
/// that the line is a prefix of; and an input that is a prefix of no keyword
/// yields no candidates at all.
pub proof fn lemma_prefix_completion(line: Seq<char>, word: Seq<char>)
    ensures
        keyword_vocab().contains(word) && line.is_prefix_of(word) ==> completions_of(
            line,
        ).contains(word),
        forall|j: int|
            0 <= j < completions_of(line).len() ==> keyword_vocab().contains(
                #[trigger] completions_of(line)[j],
            ) && line.is_prefix_of(completions_of(line)[j]),
        (forall|i: int|
            0 <= i < keyword_vocab().len() ==> !line.is_prefix_of(
                #[trigger] keyword_vocab()[i],
            )) ==> completions_of(line) =~= Seq::<Seq<char>>::empty(),
{
    if keyword_vocab().contains(word) && line.is_prefix_of(word) {
        let i = choose|i: int| 0 <= i < keyword_vocab().len() && keyword_vocab()[i] == word;
        lemma_matching_words_complete(keyword_vocab(), line, i);
    }
    lemma_matching_words_sound(keyword_vocab(), line);
    if forall|i: int|
        0 <= i < keyword_vocab().len() ==> !line.is_prefix_of(#[trigger] keyword_vocab()[i]) {
        lemma_matching_words_none(keyword_vocab(), line);
    }
}

/// No hint label is a prefix of a different hint label: every label is at
/// least three characters long, and the labels already differ within their
/// first two characters.
proof fn lemma_labels_prefix_free()
    ensures
        forall|a: int, b: int|
            #![trigger label_vocab()[a].is_prefix_of(label_vocab()[b])]
            0 <= a < label_vocab().len() && 0 <= b < label_vocab().len() && a != b
                ==> !label_vocab()[a].is_prefix_of(label_vocab()[b]),
{
    reveal_strlit("feat");
    reveal_strlit("fix");
    reveal_strlit("docs");
    reveal_strlit("style");
    reveal_strlit("refactor");
    reveal_strlit("perf");
    reveal_strlit("test");
    reveal_strlit("chore");
    assert forall|a: int, b: int|
        0 <= a < label_vocab().len() && 0 <= b < label_vocab().len() && a
            != b implies !label_vocab()[a].is_prefix_of(label_vocab()[b]) by {
        let la = label_vocab()[a];
        let lb = label_vocab()[b];
        if la.is_prefix_of(lb) {
            assert(la.len() >= 3);
            assert(la[0] == lb[0] && la[1] == lb[1]);
            assert(false);
        }
    }
}

/// Law: when the input is exactly a known hint label, nothing is left to
/// suggest: the hint suffix is empty and only the separator remains.
pub proof fn lemma_full_label_hint(line: Seq<char>)
    requires
        label_vocab().contains(line),
    ensures
        hint_of(line) =~= ": "@,
{
    lemma_labels_prefix_free();
    lemma_first_match_props(label_vocab(), line, 0);
    let k = choose|k: int| 0 <= k < label_vocab().len() && label_vocab()[k] == line;
    reveal_strlit("feat");
    reveal_strlit("fix");
    reveal_strlit("docs");
    reveal_strlit("style");
    reveal_strlit("refactor");
    reveal_strlit("perf");
    reveal_strlit("test");
    reveal_strlit("chore");
    assert(line.len() >= 3);
    assert(line.is_prefix_of(label_vocab()[k])) by {
        assert(line =~= line.subrange(0, line.len() as int));
    }
    let f = first_match_from(label_vocab(), line, 0);
    assert(f == k);
    assert(label_vocab()[k].skip(line.len() as int) =~= Seq::<char>::empty());
    assert(hint_of(line) =~= ": "@);
}

/// Law: an empty input line gets no hint, whatever matches the vocabulary
/// would otherwise offer.
pub proof fn lemma_empty_line_no_hint()
    ensures
        hint_of(Seq::<char>::empty()) == Seq::<char>::empty(),
{
}

/// Law: hint selection is deterministic and honours the fixed enumeration
/// order: whenever a label matches the non-empty line, the hint is computed
/// from the first matching label, which stands no later than any other match.
pub proof fn lemma_hint_first_match(line: Seq<char>, i: int)
    requires
        line.len() > 0,
        0 <= i < label_vocab().len(),
        line.is_prefix_of(label_vocab()[i]),
    ensures
        ({
            let k = first_match_from(label_vocab(), line, 0);
            &&& 0 <= k <= i
            &&& line.is_prefix_of(label_vocab()[k])
            &&& hint_of(line) == label_vocab()[k].skip(line.len() as int) + ": "@
        }),
{
    lemma_first_match_props(label_vocab(), line, 0);
}

/// What one attempt to read a line from the interactive transport produced.
pub enum ReadEvent {
    /// A line was read successfully.
    Line(String),
    /// The user sent the explicit cancel signal.
    Interrupted,
    /// The transport reported end of input.
    EndOfInput,
    /// Any other transport-level failure, with its rendered detail.
    TransportFailed(String),
}

/// Why message entry ended without a message.
pub enum Aborted {
    /// The user cancelled entry.
    Interrupted,
    /// Input ended before a line was read.
    EndOfInput,
    /// The transport failed; the detail is surfaced for display and then
    /// treated as an abort, never retried.
    TransportFailed(String),
}

/// Loop-termination policy for message entry: a successful read submits the
/// line exactly as typed, and every other transport outcome aborts entry, so
/// an aborted entry never yields a message for the commit path.
pub fn finish_entry(event: ReadEvent) -> (r: Result<String, Aborted>)
    ensures
        match event {
            ReadEvent::Line(line) => r matches Ok(m) && m == line,
            ReadEvent::Interrupted => r matches Err(a) && a is Interrupted,
            ReadEvent::EndOfInput => r matches Err(a) && a is EndOfInput,
            ReadEvent::TransportFailed(detail) => r matches Err(a) && (a
                matches Aborted::TransportFailed(d) && d == detail),
        },
        r is Ok <==> event is Line,
{
    match event {
        ReadEvent::Line(line) => Ok(line),
        ReadEvent::Interrupted => Err(Aborted::Interrupted),
        ReadEvent::EndOfInput => Err(Aborted::EndOfInput),
        ReadEvent::TransportFailed(detail) => Err(Aborted::TransportFailed(detail)),
    }
}

} // verus!
