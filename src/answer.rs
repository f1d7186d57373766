use vstd::prelude::*;

verus! {

/// The answer that the oracle gives when it will not commit; a stored copy of it is never final.
pub const PLACEHOLDER: &'static str = "Ask again later.";

/// The label that the model is asked to put in front of its answer.
pub const LABEL: &'static str = "Answer:";

/// The instructions that come before the question in a prompt.
pub const PROMPT_HEAD: &'static str = "<s>[INST] <<SYS>>\n        You are acting as a Magic 8 Ball that predicts the answer to a questions about events now or in the future.\n        Your tone should be expressive yet polite.\n        Your answers should be 10 words or less.\n        Prefix your response with 'Answer:'.\n        <</SYS>>\n        ";

/// What closes a prompt after the question.
pub const PROMPT_TAIL: &'static str = "[/INST]";

/// True of the characters that Unicode gives the `White_Space` property.
pub open spec fn is_space(c: char) -> bool {
    c == ' ' || ('\t' <= c && c <= '\r') || c == '\u{85}' || c == '\u{a0}' || c == '\u{1680}'
        || ('\u{2000}' <= c && c <= '\u{200a}') || c == '\u{2028}' || c == '\u{2029}'
        || c == '\u{202f}' || c == '\u{205f}' || c == '\u{3000}'
}

/// `s` without its leading white space.
pub open spec fn trim_start(s: Seq<char>) -> Seq<char>
    decreases s.len(),
{
    if s.len() > 0 && is_space(s[0]) {
        trim_start(s.drop_first())
    } else {
        s
    }
}

/// `s` without its trailing white space.
pub open spec fn trim_end(s: Seq<char>) -> Seq<char>
    decreases s.len(),
{
    if s.len() > 0 && is_space(s.last()) {
        trim_end(s.drop_last())
    } else {
        s
    }
}

/// `s` without white space at either end.
pub open spec fn trimmed(s: Seq<char>) -> Seq<char> {
    trim_end(trim_start(s))
}

/// Neither end of `s` is white space.
pub open spec fn is_tidy(s: Seq<char>) -> bool {
    s.len() == 0 || (!is_space(s[0]) && !is_space(s.last()))
}

/// `p` is a prefix of `s`.
pub open spec fn has_prefix(s: Seq<char>, p: Seq<char>) -> bool {
    p.len() <= s.len() && s.subrange(0, p.len() as int) == p
}

/// `s` begins with the answer label.
pub open spec fn has_label(s: Seq<char>) -> bool {
    has_prefix(s, LABEL@)
}

/// Takes off a leading label and trims what follows, for as long as a label leads.
pub open spec fn strip_labels(s: Seq<char>) -> Seq<char>
    decreases s.len(),
{
    if has_label(s) {
        let rest = s.subrange(LABEL@.len() as int, s.len() as int);
        proof {
            lemma_label_len();
            lemma_trimmed_shape(rest);
        }
        strip_labels(trimmed(rest))
    } else {
        s
    }
}

/// The answer made of what the model returned: trimmed, then stripped of its labels.
pub open spec fn cleaned(raw: Seq<char>) -> Seq<char> {
    strip_labels(trimmed(raw))
}

/// The question as it is put to the model: with a question mark at its end.
pub open spec fn normalized(q: Seq<char>) -> Seq<char> {
    if q.len() > 0 && q.last() == '?' {
        q
    } else {
        q.push('?')
    }
}

/// The full prompt for question `q`.
pub open spec fn prompt_for(q: Seq<char>) -> Seq<char> {
    PROMPT_HEAD@ + normalized(q) + PROMPT_TAIL@
}

/// `a` is the placeholder answer.
pub open spec fn is_placeholder(a: Seq<char>) -> bool {
    a == PLACEHOLDER@
}

/// The label is not empty.
pub proof fn lemma_label_len()
    ensures
        LABEL@.len() == 7,
{
    reveal_strlit("Answer:");
}

/// What `trim_start` keeps is a suffix of its argument that starts with no white space.
pub proof fn lemma_trim_start_shape(s: Seq<char>)
    ensures
        trim_start(s).len() <= s.len(),
        trim_start(s) == s.subrange(s.len() - trim_start(s).len(), s.len() as int),
        trim_start(s).len() == 0 || !is_space(trim_start(s)[0]),
    decreases s.len(),
{
    if s.len() > 0 && is_space(s[0]) {
        lemma_trim_start_shape(s.drop_first());
        let t = trim_start(s.drop_first());
        assert(s.drop_first().subrange(s.len() - 1 - t.len(), s.len() - 1) =~= s.subrange(
            s.len() - t.len(),
            s.len() as int,
        ));
    } else {
        assert(s.subrange(0, s.len() as int) =~= s);
    }
}

/// What `trim_end` keeps is a prefix of its argument that ends with no white space.
pub proof fn lemma_trim_end_shape(s: Seq<char>)
    ensures
        trim_end(s).len() <= s.len(),
        trim_end(s) == s.subrange(0, trim_end(s).len() as int),
        trim_end(s).len() == 0 || !is_space(trim_end(s).last()),
    decreases s.len(),
{
    if s.len() > 0 && is_space(s.last()) {
        lemma_trim_end_shape(s.drop_last());
        let t = trim_end(s.drop_last());
        assert(s.drop_last().subrange(0, t.len() as int) =~= s.subrange(0, t.len() as int));
    } else {
        assert(s.subrange(0, s.len() as int) =~= s);
    }
}

/// Trimming never lengthens a text, and leaves it tidy.
pub proof fn lemma_trimmed_shape(s: Seq<char>)
    ensures
        trimmed(s).len() <= s.len(),
        is_tidy(trimmed(s)),
{
    lemma_trim_start_shape(s);
    let t = trim_start(s);
    lemma_trim_end_shape(t);
    let u = trim_end(t);
    if u.len() > 0 {
        assert(u[0] == t.subrange(0, u.len() as int)[0]);
    }
}

/// A tidy text is its own trim.
pub proof fn lemma_tidy_is_trimmed(s: Seq<char>)
    requires
        is_tidy(s),
    ensures
        trimmed(s) == s,
{
}

/// Stripping the labels of a tidy text leaves a tidy text that has no label in front.
pub proof fn lemma_strip_labels_shape(s: Seq<char>)
    requires
        is_tidy(s),
    ensures
        is_tidy(strip_labels(s)),
        !has_label(strip_labels(s)),
    decreases s.len(),
{
    if has_label(s) {
        let rest = s.subrange(LABEL@.len() as int, s.len() as int);
        lemma_label_len();
        lemma_trimmed_shape(rest);
        lemma_strip_labels_shape(trimmed(rest));
    }
}

/// Cleaning the model's output leaves a tidy answer with no label in front.
pub proof fn lemma_cleaned_shape(raw: Seq<char>)
    ensures
        is_tidy(cleaned(raw)),
        !has_label(cleaned(raw)),
{
    lemma_trimmed_shape(raw);
    lemma_strip_labels_shape(trimmed(raw));
}

/// Cleaning an answer that is already clean changes nothing.
pub proof fn cleaning_is_idempotent(raw: Seq<char>)
    ensures
        cleaned(cleaned(raw)) == cleaned(raw),
{
    let c = cleaned(raw);
    lemma_cleaned_shape(raw);
    lemma_tidy_is_trimmed(c);
}

/// Tells whether `c` is white space in the sense of `is_space`.
pub fn char_is_space(c: char) -> (r: bool)
    ensures
        r == is_space(c),
{
    c == ' ' || ('\t' <= c && c <= '\r') || c == '\u{85}' || c == '\u{a0}' || c == '\u{1680}'
        || ('\u{2000}' <= c && c <= '\u{200a}') || c == '\u{2028}' || c == '\u{2029}'
        || c == '\u{202f}' || c == '\u{205f}' || c == '\u{3000}'
}

/// Tells whether `p` is a prefix of `s`.
pub fn starts_with(s: &str, p: &str) -> (r: bool)
    ensures
        r == has_prefix(s@, p@),
{
    let n = s.unicode_len();
    let m = p.unicode_len();
    if m > n {
        return false;
    }
    let mut i: usize = 0;
    while i < m
        invariant
            m <= n,
            n == s@.len(),
            m == p@.len(),
            i <= m,
            forall|k: int| 0 <= k < i ==> s@[k] == p@[k],
        decreases m - i,
    {
        if s.get_char(i) != p.get_char(i) {
            assert(s@.subrange(0, m as int)[i as int] != p@[i as int]);
            return false;
        }
        i += 1;
    }
    assert(s@.subrange(0, m as int) =~= p@);
    true
}

/// Removes the white space at both ends of `s`.
pub fn trim_text(s: &str) -> (r: String)
    ensures
        r@ == trimmed(s@),
{
    let n = s.unicode_len();
    let mut i: usize = 0;
    assert(s@.subrange(0, n as int) =~= s@);
    while i < n && char_is_space(s.get_char(i))
        invariant
            i <= n,
            n == s@.len(),
            trim_start(s@.subrange(i as int, n as int)) == trim_start(s@),
        decreases n - i,
    {
        assert(s@.subrange(i + 1, n as int) =~= s@.subrange(i as int, n as int).drop_first());
        i += 1;
    }
    if i < n {
        assert(s@.subrange(i as int, n as int)[0] == s@[i as int]);
    }
    let mut j: usize = n;
    while j > i && char_is_space(s.get_char(j - 1))
        invariant
            i <= j <= n,
            n == s@.len(),
            trim_start(s@) == s@.subrange(i as int, n as int),
            trim_end(s@.subrange(i as int, j as int)) == trimmed(s@),
        decreases j,
    {
        assert(s@.subrange(i as int, j - 1) =~= s@.subrange(i as int, j as int).drop_last());
        j -= 1;
    }
    s.substring_char(i, j).to_owned()
}

/// Takes off the leading labels of an answer, trimming after each one.
pub fn strip_answer_labels(s: &str) -> (r: String)
    ensures
        r@ == strip_labels(s@),
{
    let mut cur = s.to_owned();
    let label_len = LABEL.unicode_len();
    while starts_with(cur.as_str(), LABEL)
        invariant
            strip_labels(cur@) == strip_labels(s@),
            label_len == LABEL@.len(),
        decreases cur@.len(),
    {
        proof {
            lemma_label_len();
            lemma_trimmed_shape(cur@.subrange(label_len as int, cur@.len() as int));
        }
        let n = cur.as_str().unicode_len();
        let next = trim_text(cur.as_str().substring_char(label_len, n));
        cur = next;
    }
    cur
}

/// Turns what the model returned into an answer: trimmed, with no label in front.
pub fn clean_answer(raw: &str) -> (r: String)
    ensures
        r@ == cleaned(raw@),
        is_tidy(r@),
        !has_label(r@),
{
    proof {
        lemma_cleaned_shape(raw@);
    }
    let t = trim_text(raw);
    strip_answer_labels(t.as_str())
}

/// Puts a question mark at the end of `q` where none is there.
pub fn normalize_question(q: &str) -> (r: String)
    ensures
        r@ == normalized(q@),
{
    let n = q.unicode_len();
    let mut r = q.to_owned();
    if n == 0 || q.get_char(n - 1) != '?' {
        proof {
            reveal_strlit("?");
        }
        r.append("?");
    }
    r
}

/// Builds the prompt that asks the model to answer `q`.
pub fn build_prompt(q: &str) -> (r: String)
    ensures
        r@ == prompt_for(q@),
{
    let question = normalize_question(q);
    let mut r = String::from_str(PROMPT_HEAD);
    r.append(question.as_str());
    r.append(PROMPT_TAIL);
    r
}

/// Tells whether `a` is the placeholder answer.
pub fn is_placeholder_answer(a: &str) -> (r: bool)
    ensures
        r == is_placeholder(a@),
{
    let same_start = starts_with(a, PLACEHOLDER);
    let r = same_start && a.unicode_len() == PLACEHOLDER.unicode_len();
    assert(a@.subrange(0, a@.len() as int) =~= a@);
    r
}

} // verus!
