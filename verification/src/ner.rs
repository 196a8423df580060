//! Decoding of BERT token-classification output into named-entity spans.
//!
//! The model's per-token labels use the BIO scheme (`B-PER`, `I-LOC`, `O`).
//! Subword tokens of one word are folded into one tag, consecutive tags of
//! one entity are merged into spans, and spans below a confidence threshold
//! are dropped.
//!
//! Scores are probabilities in `[0, 1]` produced as `f32`; here a score is
//! held as the IEEE-754 bit pattern of that non-negative `f32`, which orders
//! exactly as the probabilities do.

use vstd::prelude::*;
use crate::text::{decimal, push_decimal, str_eq};

verus! {

/// Recognizer name stamped on every NER-produced result.
pub const RECOGNIZER_NAME: &'static str = "BertNerRecognizer";

/// Bit pattern of the `f32` value `1.0`: the largest valid score.
pub const SCORE_ONE_BITS: u32 = 0x3F80_0000;

/// Entities the NER decoder can emit.
#[derive(Debug, Clone, Copy, PartialEq, Eq, Structural)]
pub enum Entity {
    /// A person's name.
    Person,
    /// A location (including geo-political entities).
    Location,
    /// An organization.
    Organization,
    /// A nationality, religious or political group.
    Nrp,
    /// A facility (building, airport, bridge).
    Facility,
}

/// A confidence score: a probability in `[0, 1]`, held as the bit pattern of
/// its `f32` value.
#[derive(Debug, Clone, Copy, PartialEq, Eq, Structural)]
pub struct Score {
    bits: u32,
}

impl Score {
    /// The bit pattern of the score's `f32` value.
    pub closed spec fn spec_bits(self) -> u32 {
        self.bits
    }

    /// The score whose `f32` value has the bit pattern `bits`.
    pub closed spec fn spec_from_bits(bits: u32) -> Score {
        Score { bits }
    }

    /// Every score lies in `[0, 1]`.
    pub closed spec fn wf(self) -> bool {
        self.bits <= SCORE_ONE_BITS
    }

    /// The score with the given `f32` bit pattern, when it lies in `[0, 1]`.
    pub fn from_bits(bits: u32) -> (r: Option<Score>)
        ensures
            bits <= SCORE_ONE_BITS ==> (r matches Some(s) && s == Score::spec_from_bits(bits) && s.spec_bits()
                == bits && s.wf()),
            bits > SCORE_ONE_BITS ==> r is None,
    {
        if bits <= SCORE_ONE_BITS {
            Some(Score { bits })
        } else {
            None
        }
    }

    /// The bit pattern of the score's `f32` value.
    pub fn to_bits(&self) -> (b: u32)
        ensures
            b == self.spec_bits(),
    {
        self.bits
    }
}

/// The entity a label core (the label without its `B-`/`I-` prefix) maps to.
pub open spec fn entity_for_core_spec(core: Seq<char>) -> Option<Entity> {
    if core == "PER"@ || core == "PERSON"@ {
        Some(Entity::Person)
    } else if core == "LOC"@ || core == "GPE"@ {
        Some(Entity::Location)
    } else if core == "ORG"@ || core == "ORGANIZATION"@ {
        Some(Entity::Organization)
    } else if core == "NORP"@ || core == "NRP"@ {
        Some(Entity::Nrp)
    } else if core == "FAC"@ {
        Some(Entity::Facility)
    } else {
        None
    }
}

/// `p` is a prefix of `s`.
pub open spec fn has_prefix(s: Seq<char>, p: Seq<char>) -> bool {
    p.len() <= s.len() && s.take(p.len() as int) == p
}

/// A BIO label split into its mapped entity and its begin flag: `B-x` is a
/// begin tag, `I-x` a continuation, anything else (such as `O`) no entity.
pub open spec fn parse_bio_spec(label: Seq<char>) -> (Option<Entity>, bool) {
    if has_prefix(label, "B-"@) {
        (entity_for_core_spec(label.skip(2)), true)
    } else if has_prefix(label, "I-"@) {
        (entity_for_core_spec(label.skip(2)), false)
    } else {
        (None, false)
    }
}

/// `str::strip_prefix` with a string prefix: the rest of `s` after `prefix`,
/// or `None` when `s` does not start with `prefix`.
#[verifier::external_body]
fn str_strip_prefix<'a>(s: &'a str, prefix: &str) -> (r: Option<&'a str>)
    ensures
        r is Some <==> has_prefix(s@, prefix@),
        r matches Some(t) ==> t@ == s@.skip(prefix@.len() as int),
{
    s.strip_prefix(prefix)
}

/// A `B-` label and an `I-` label with the same core name the same entity
/// (the one the core maps to); the first begins an entity and the second
/// continues one.
pub proof fn lemma_begin_and_inside_labels_agree(core: Seq<char>)
    ensures
        parse_bio_spec("B-"@ + core) == (entity_for_core_spec(core), true),
        parse_bio_spec("I-"@ + core) == (entity_for_core_spec(core), false),
{
    reveal_strlit("B-");
    reveal_strlit("I-");
    assert(("B-"@ + core).take(2) =~= "B-"@);
    assert(("B-"@ + core).skip(2) =~= core);
    assert(("I-"@ + core).take(2) =~= "I-"@);
    assert(("I-"@ + core).skip(2) =~= core);
    assert(("I-"@ + core).take(2) != "B-"@) by {
        assert(("I-"@ + core).take(2)[0] != "B-"@[0]);
    }
}

/// A label without a `B-` or `I-` prefix (such as `O`) names no entity.
pub proof fn lemma_unprefixed_label_names_no_entity(label: Seq<char>)
    requires
        !has_prefix(label, "B-"@),
        !has_prefix(label, "I-"@),
    ensures
        parse_bio_spec(label) == (None::<Entity>, false),
{
}

/// Maps a label core (without the `B-`/`I-` prefix) to a built-in entity.
pub fn entity_for_core(core: &str) -> (r: Option<Entity>)
    ensures
        r == entity_for_core_spec(core@),
{
    if str_eq(core, "PER") || str_eq(core, "PERSON") {
        Some(Entity::Person)
    } else if str_eq(core, "LOC") || str_eq(core, "GPE") {
        Some(Entity::Location)
    } else if str_eq(core, "ORG") || str_eq(core, "ORGANIZATION") {
        Some(Entity::Organization)
    } else if str_eq(core, "NORP") || str_eq(core, "NRP") {
        Some(Entity::Nrp)
    } else if str_eq(core, "FAC") {
        Some(Entity::Facility)
    } else {
        None
    }
}

/// Splits a BIO label into its mapped entity and a begin flag.
///
/// `"O"` and unmapped cores yield no entity.
pub fn parse_bio(label: &str) -> (r: (Option<Entity>, bool))
    ensures
        r == parse_bio_spec(label@),
{
    proof {
        reveal_strlit("B-");
        reveal_strlit("I-");
    }
    if let Some(core) = str_strip_prefix(label, "B-") {
        (entity_for_core(core), true)
    } else if let Some(core) = str_strip_prefix(label, "I-") {
        (entity_for_core(core), false)
    } else {
        (None, false)
    }
}

/// Some label of `labels` maps to a supported entity.
pub open spec fn has_supported_entity_spec(labels: Seq<String>) -> bool {
    exists|i: int| 0 <= i < labels.len() && (#[trigger] parse_bio_spec(labels[i]@)).0 is Some
}

/// Reports whether any BIO label maps to a supported NER entity, which is
/// what a model must offer to be loaded.
pub fn has_supported_entity(labels: &[String]) -> (r: bool)
    ensures
        r == has_supported_entity_spec(labels@),
{
    for i in 0..labels.len()
        invariant
            forall|j: int| 0 <= j < i ==> (#[trigger] parse_bio_spec(labels@[j]@)).0 is None,
    {
        if parse_bio(labels[i].as_str()).0.is_some() {
            return true;
        }
    }
    false
}

/// The entities the decoder can emit: the default allow-set.
pub fn ner_entities() -> (v: Vec<Entity>)
    ensures
        v@ == seq![
            Entity::Person,
            Entity::Location,
            Entity::Organization,
            Entity::Nrp,
            Entity::Facility,
        ],
{
    let mut v = Vec::new();
    v.push(Entity::Person);
    v.push(Entity::Location);
    v.push(Entity::Organization);
    v.push(Entity::Nrp);
    v.push(Entity::Facility);
    v
}

/// Errors raised while loading or running the NER engine.
#[derive(Debug)]
pub enum NerError {
    /// The model directory, tokenizer, or weights could not be opened.
    Load(String),
    /// A tokenization or model forward-pass step failed.
    Inference(String),
}

/// The user-facing message of a NER error.
pub open spec fn ner_error_message(e: NerError) -> Seq<char> {
    match e {
        NerError::Load(s) => "NER model load failed: "@ + s@,
        NerError::Inference(s) => "NER inference failed: "@ + s@,
    }
}

impl NerError {
    /// The user-facing message of this error.
    pub fn message(&self) -> (m: String)
        ensures
            m@ == ner_error_message(*self),
    {
        match self {
            NerError::Load(s) => {
                let mut m = String::from_str("NER model load failed: ");
                m.append(s.as_str());
                m
            },
            NerError::Inference(s) => {
                let mut m = String::from_str("NER inference failed: ");
                m.append(s.as_str());
                m
            },
        }
    }
}

/// The entries of an `id2label` object, in ascending index order, are the
/// contiguous range `0..len`.
pub open spec fn contiguous_indices(entries: Seq<(u64, String)>) -> bool {
    forall|i: int| 0 <= i < entries.len() ==> #[trigger] entries[i].0 == i
}

/// The position of the first entry whose index is not its position.
pub open spec fn first_gap(entries: Seq<(u64, String)>) -> int
    decreases entries.len(),
{
    if entries.len() == 0 {
        0
    } else if !contiguous_indices(entries.drop_last()) {
        first_gap(entries.drop_last())
    } else {
        entries.len() - 1
    }
}

/// Builds the indexed label list from the entries of a model's `id2label`
/// object, taken in ascending index order.
///
/// Fails with `NerError::Load("id2label index <idx> out of range")` at the
/// first entry whose index is not its position.
pub fn labels_from_id2label(entries: Vec<(u64, String)>) -> (r: Result<Vec<String>, NerError>)
    ensures
        contiguous_indices(entries@) ==> (r matches Ok(v) && v@.len() == entries@.len() && forall|
            i: int,
        | 0 <= i < v@.len() ==> #[trigger] v@[i] == entries@[i].1),
        !contiguous_indices(entries@) ==> (r matches Err(NerError::Load(m)) && m@
            == "id2label index "@ + decimal(entries@[first_gap(entries@)].0 as nat)
            + " out of range"@),
{
    let mut labels: Vec<String> = Vec::new();
    let n = entries.len();
    let mut i: usize = 0;
    while i < n
        invariant
            n == entries@.len(),
            i <= n,
            contiguous_indices(entries@.take(i as int)),
            labels@.len() == i,
            forall|j: int| 0 <= j < i ==> #[trigger] labels@[j] == entries@[j].1,
        decreases n - i,
    {
        let idx = entries[i].0;
        if idx != i as u64 {
            proof {
                lemma_first_gap(entries@, i as int);
            }
            let mut m = String::from_str("id2label index ");
            push_decimal(&mut m, idx);
            m.append(" out of range");
            return Err(NerError::Load(m));
        }
        labels.push(entries[i].1.clone());
        proof {
            assert forall|j: int| 0 <= j < i + 1 implies #[trigger] entries@.take(i + 1)[j].0 == j by {
                if j < i {
                    assert(entries@.take(i + 1)[j] == entries@.take(i as int)[j]);
                }
            }
        }
        i = i + 1;
    }
    proof {
        assert(entries@.take(n as int) =~= entries@);
    }
    Ok(labels)
}

/// The first gap is the first position whose index differs from it.
proof fn lemma_first_gap(entries: Seq<(u64, String)>, i: int)
    requires
        0 <= i < entries.len(),
        contiguous_indices(entries.take(i)),
        entries[i].0 != i,
    ensures
        first_gap(entries) == i,
        !contiguous_indices(entries),
    decreases entries.len(),
{
    if entries.len() == i + 1 {
        assert(entries.drop_last() =~= entries.take(i));
    } else {
        let d = entries.drop_last();
        assert(d.take(i) =~= entries.take(i));
        assert(d[i] == entries[i]);
        lemma_first_gap(d, i);
    }
}

/// One token's decoded BIO tag with its byte span and confidence.
#[derive(Debug, Clone, Copy)]
pub struct TokenTag {
    /// The entity of the tag; `None` for an outside (`O`) tag.
    pub entity: Option<Entity>,
    /// The tag begins an entity (`B-`).
    pub is_begin: bool,
    /// The token's probability, as the bit pattern of its `f32` value.
    pub score: u32,
    /// Byte offset where the token starts.
    pub start: usize,
    /// Byte offset where the token ends.
    pub end: usize,
}

/// A non-entity ("O") tag, which closes any open span.
pub open spec fn outside_tag() -> TokenTag {
    TokenTag { entity: None, is_begin: false, score: 0, start: 0, end: 0 }
}

impl TokenTag {
    /// A non-entity ("O") tag that closes any open span.
    pub fn outside() -> (t: Self)
        ensures
            t == outside_tag(),
    {
        TokenTag { entity: None, is_begin: false, score: 0, start: 0, end: 0 }
    }
}

/// The larger of two scores.
pub open spec fn max_score(a: u32, b: u32) -> u32 {
    if a >= b {
        a
    } else {
        b
    }
}

/// A word's tag extended by one more of its subword tokens: the span runs to
/// the token's end and the score lifts to the larger of the two.
pub open spec fn fold_subword(last: TokenTag, tag: TokenTag) -> TokenTag {
    TokenTag { end: tag.end, score: max_score(last.score, tag.score), ..last }
}

/// One step of folding subword tags into word tags.
pub open spec fn aggregate_step(
    state: (Seq<TokenTag>, Option<u32>),
    tag: TokenTag,
    word_id: Option<u32>,
) -> (Seq<TokenTag>, Option<u32>) {
    let (out, current) = state;
    match word_id {
        Some(id) => if current == Some(id) {
            if out.len() > 0 {
                (out.update(out.len() - 1, fold_subword(out.last(), tag)), current)
            } else {
                (out, current)
            }
        } else {
            (out.push(tag), Some(id))
        },
        None => (out.push(outside_tag()), None),
    }
}

/// The state after folding the first `n` tokens.
pub open spec fn aggregate_prefix(tags: Seq<TokenTag>, word_ids: Seq<Option<u32>>, n: nat) -> (
    Seq<TokenTag>,
    Option<u32>,
)
    decreases n,
{
    if n == 0 {
        (Seq::empty(), None)
    } else {
        aggregate_step(
            aggregate_prefix(tags, word_ids, (n - 1) as nat),
            tags[n - 1],
            word_ids[n - 1],
        )
    }
}

/// The number of tokens paired with a word id.
pub open spec fn paired_len(tags: Seq<TokenTag>, word_ids: Seq<Option<u32>>) -> nat {
    if tags.len() <= word_ids.len() {
        tags.len()
    } else {
        word_ids.len()
    }
}

/// One tag per word: tokens sharing a word id fold into the tag of the
/// word's first subword, widened to the last subword's end, scored by the
/// best subword; tokens without a word id become outside tags.
pub open spec fn aggregate_words_spec(tags: Seq<TokenTag>, word_ids: Seq<Option<u32>>) -> Seq<TokenTag> {
    aggregate_prefix(tags, word_ids, paired_len(tags, word_ids)).0
}

/// Collapses subword tags into one tag per word (the "first" strategy).
///
/// Tokens sharing a `word_id` fold into a single tag: the label comes from
/// the word's first subword, the score is the max over its subwords, and the
/// span runs from the first subword's start to the last subword's end.
/// Tokens with no word id (special tokens) become outside tags, closing any
/// open word. Tokens beyond the shorter of the two inputs are ignored.
pub fn aggregate_words(tags: &[TokenTag], word_ids: &[Option<u32>]) -> (out: Vec<TokenTag>)
    ensures
        out@ == aggregate_words_spec(tags@, word_ids@),
{
    let n = if tags.len() <= word_ids.len() {
        tags.len()
    } else {
        word_ids.len()
    };
    let mut out: Vec<TokenTag> = Vec::new();
    let mut current: Option<u32> = None;
    for i in 0..n
        invariant
            n == paired_len(tags@, word_ids@),
            n <= tags@.len(),
            n <= word_ids@.len(),
            (out@, current) == aggregate_prefix(tags@, word_ids@, i as nat),
    {
        let tag = tags[i];
        match word_ids[i] {
            Some(id) => {
                let same = match current {
                    Some(c) => c == id,
                    None => false,
                };
                if same {
                    let len = out.len();
                    if len > 0 {
                        let last = out[len - 1];
                        let score = if last.score >= tag.score {
                            last.score
                        } else {
                            tag.score
                        };
                        out.set(len - 1, TokenTag { end: tag.end, score, ..last });
                    }
                } else {
                    current = Some(id);
                    out.push(tag);
                }
            },
            None => {
                current = None;
                out.push(TokenTag::outside());
            },
        }
    }
    out
}

/// Tokens `a..b` are one word's subwords, opened with word id `id` and not
/// yet known to end at `b`: all carry `id`, the token before `a` (if any)
/// carries another id, and `w` is their folded tag — the first subword's
/// entity, begin flag and start, the last subword's end, and the best score
/// among them.
pub open spec fn word_fold(
    tags: Seq<TokenTag>,
    word_ids: Seq<Option<u32>>,
    a: int,
    b: int,
    w: TokenTag,
) -> bool {
    &&& 0 <= a < b <= paired_len(tags, word_ids)
    &&& match word_ids[a] {
        Some(id) => {
            &&& forall|k: int| a <= k < b ==> #[trigger] word_ids[k] == Some(id)
            &&& (a == 0 || word_ids[a - 1] != Some(id))
            &&& w.entity == tags[a].entity
            &&& w.is_begin == tags[a].is_begin
            &&& w.start == tags[a].start
            &&& w.end == tags[b - 1].end
            &&& forall|k: int| a <= k < b ==> (#[trigger] tags[k]).score <= w.score
            &&& exists|k: int| a <= k < b && (#[trigger] tags[k]).score == w.score
        },
        None => b == a + 1 && w == outside_tag(),
    }
}

/// Tokens `a..b` are a whole word (or one token without a word id) and `w`
/// is its folded tag: the next paired token, if any, carries another id.
pub open spec fn word_group(tags: Seq<TokenTag>, word_ids: Seq<Option<u32>>, a: int, b: int, w: TokenTag) -> bool {
    &&& word_fold(tags, word_ids, a, b, w)
    &&& (b == paired_len(tags, word_ids) || word_ids[a] is None || word_ids[b] != word_ids[a])
}

/// Token `k` starts a word: it is the first token, has no word id, or has
/// another id than the token before it.
pub open spec fn starts_word(word_ids: Seq<Option<u32>>, k: int) -> bool {
    k == 0 || word_ids[k] is None || word_ids[k - 1] != word_ids[k]
}

/// The number of words started among the first `n` tokens.
pub open spec fn words_started(word_ids: Seq<Option<u32>>, n: int) -> nat
    decreases n,
{
    if n <= 0 {
        0
    } else {
        words_started(word_ids, n - 1) + if starts_word(word_ids, n - 1) {
            1nat
        } else {
            0nat
        }
    }
}

/// The whole word numbered `j` (counting from zero in token order) has the
/// folded tag `w`.
pub open spec fn folds_word_number(tags: Seq<TokenTag>, word_ids: Seq<Option<u32>>, j: int, w: TokenTag) -> bool {
    exists|a: int, b: int| word_group(tags, word_ids, a, b, w) && words_started(word_ids, a) == j
}

/// There is one word tag per word, in token order, and each folds its
/// whole word: it takes its entity, begin flag and start from the word's
/// first subword, its end from the last subword, and the best score of all
/// its subwords; a token without a word id becomes an outside tag of its own.
pub proof fn lemma_word_tags_fold_whole_words(tags: Seq<TokenTag>, word_ids: Seq<Option<u32>>)
    ensures
        aggregate_words_spec(tags, word_ids).len() == words_started(
            word_ids,
            paired_len(tags, word_ids) as int,
        ),
        forall|j: int|
            #![trigger aggregate_words_spec(tags, word_ids)[j]]
            0 <= j < aggregate_words_spec(tags, word_ids).len() ==> folds_word_number(
                tags,
                word_ids,
                j,
                aggregate_words_spec(tags, word_ids)[j],
            ),
{
    let n = paired_len(tags, word_ids);
    lemma_aggregate_prefix_folds(tags, word_ids, n);
    let out = aggregate_words_spec(tags, word_ids);
    assert forall|j: int| #![trigger out[j]] 0 <= j < out.len() implies folds_word_number(tags, word_ids, j, out[j]) by {
        assert(folds_prefix_entry(tags, word_ids, n as int, out, j));
        let (a, b) = choose|a: int, b: int|
            word_fold(tags, word_ids, a, b, out[j]) && b <= n && (b < n ==> (word_ids[a] is None
                || word_ids[b] != word_ids[a])) && (j == out.len() - 1 ==> b == n) && (j < out.len() - 1
                ==> b < n) && words_started(word_ids, a) == j;
        assert(word_group(tags, word_ids, a, b, out[j]));
    }
}

/// Word tag `j` of `out`, after `n` tokens, folds tokens `a..b` with
/// `b <= n`: the last tag ends at `n`, each earlier one before it, closed by
/// the token after it.
pub open spec fn folds_prefix_entry(
    tags: Seq<TokenTag>,
    word_ids: Seq<Option<u32>>,
    n: int,
    out: Seq<TokenTag>,
    j: int,
) -> bool {
    exists|a: int, b: int|
        word_fold(tags, word_ids, a, b, out[j]) && b <= n && (b < n ==> (word_ids[a] is None
            || word_ids[b] != word_ids[a])) && (j == out.len() - 1 ==> b == n) && (j < out.len() - 1
            ==> b < n) && words_started(word_ids, a) == j
}

/// After `n` tokens the current word id is that of token `n - 1`, and every
/// word tag so far folds the tokens of its word.
proof fn lemma_aggregate_prefix_folds(tags: Seq<TokenTag>, word_ids: Seq<Option<u32>>, n: nat)
    requires
        n <= paired_len(tags, word_ids),
    ensures
        n == 0 ==> aggregate_prefix(tags, word_ids, n).1 is None && aggregate_prefix(tags, word_ids, n).0.len()
            == 0,
        n > 0 ==> aggregate_prefix(tags, word_ids, n).1 == word_ids[n - 1] && aggregate_prefix(
            tags,
            word_ids,
            n,
        ).0.len() > 0,
        aggregate_prefix(tags, word_ids, n).0.len() == words_started(word_ids, n as int),
        forall|j: int|
            0 <= j < aggregate_prefix(tags, word_ids, n).0.len() ==> #[trigger] folds_prefix_entry(
                tags,
                word_ids,
                n as int,
                aggregate_prefix(tags, word_ids, n).0,
                j,
            ),
    decreases n,
{
    if n > 0 {
        let m = (n - 1) as nat;
        lemma_aggregate_prefix_folds(tags, word_ids, m);
        let (out, current) = aggregate_prefix(tags, word_ids, m);
        let (out2, current2) = aggregate_prefix(tags, word_ids, n);
        let t = tags[m as int];
        let mi = m as int;
        let ni = n as int;
        match word_ids[mi] {
            Some(id) => {
                if current == Some(id) {
                    let last = out.len() - 1;
                    assert(folds_prefix_entry(tags, word_ids, mi, out, last));
                    let (a, b) = choose|a: int, b: int|
                        word_fold(tags, word_ids, a, b, out[last]) && b <= mi && (b < mi ==> (word_ids[a] is None
                            || word_ids[b] != word_ids[a])) && (last == out.len() - 1 ==> b == mi) && (last < out.len() - 1
                            ==> b < mi) && words_started(word_ids, a) == last;
                    assert(word_ids[a] == Some(id)) by {
                        if word_ids[a] is None {
                            assert(b == a + 1);
                        }
                    }
                    let w = out2[last];
                    assert(w == fold_subword(out[last], t));
                    assert forall|k: int| a <= k < ni implies (#[trigger] tags[k]).score <= w.score by {}
                    let wk = choose|k: int| a <= k < b && (#[trigger] tags[k]).score == out[last].score;
                    if out[last].score >= t.score {
                        assert(tags[wk].score == w.score);
                    } else {
                        assert(tags[mi].score == w.score);
                    }
                    assert(word_fold(tags, word_ids, a, ni, w));
                    assert forall|j: int| 0 <= j < out2.len() implies #[trigger] folds_prefix_entry(
                        tags,
                        word_ids,
                        ni,
                        out2,
                        j,
                    ) by {
                        if j < last {
                            assert(out2[j] == out[j]);
                            assert(folds_prefix_entry(tags, word_ids, mi, out, j));
                            let (a1, b1) = choose|a1: int, b1: int|
                                word_fold(tags, word_ids, a1, b1, out[j]) && b1 <= mi && (b1 < mi ==> (word_ids[a1] is None
                                    || word_ids[b1] != word_ids[a1])) && (j == out.len() - 1 ==> b1 == mi) && (j
                                    < out.len() - 1 ==> b1 < mi) && words_started(word_ids, a1) == j;
                            assert(word_fold(tags, word_ids, a1, b1, out2[j]));
                        } else {
                            assert(word_fold(tags, word_ids, a, ni, out2[j]));
                        }
                    }
                } else {
                    assert(out2 == out.push(t));
                    assert(word_fold(tags, word_ids, mi, ni, t)) by {
                        assert(tags[mi].score == t.score);
                    }
                    assert forall|j: int| 0 <= j < out2.len() implies #[trigger] folds_prefix_entry(
                        tags,
                        word_ids,
                        ni,
                        out2,
                        j,
                    ) by {
                        if j < out.len() {
                            assert(out2[j] == out[j]);
                            assert(folds_prefix_entry(tags, word_ids, mi, out, j));
                            let (a1, b1) = choose|a1: int, b1: int|
                                word_fold(tags, word_ids, a1, b1, out[j]) && b1 <= mi && (b1 < mi ==> (word_ids[a1] is None
                                    || word_ids[b1] != word_ids[a1])) && (j == out.len() - 1 ==> b1 == mi) && (j
                                    < out.len() - 1 ==> b1 < mi) && words_started(word_ids, a1) == j;
                            if b1 == mi && word_ids[a1] is Some {
                                assert(word_ids[b1 - 1] == word_ids[a1]);
                            }
                            assert(word_fold(tags, word_ids, a1, b1, out2[j]));
                        } else {
                            assert(word_fold(tags, word_ids, mi, ni, out2[j]));
                        }
                    }
                }
            },
            None => {
                assert(out2 == out.push(outside_tag()));
                assert forall|j: int| 0 <= j < out2.len() implies #[trigger] folds_prefix_entry(
                    tags,
                    word_ids,
                    ni,
                    out2,
                    j,
                ) by {
                    if j < out.len() {
                        assert(out2[j] == out[j]);
                        assert(folds_prefix_entry(tags, word_ids, mi, out, j));
                        let (a1, b1) = choose|a1: int, b1: int|
                            word_fold(tags, word_ids, a1, b1, out[j]) && b1 <= mi && (b1 < mi ==> (word_ids[a1] is None
                                || word_ids[b1] != word_ids[a1])) && (j == out.len() - 1 ==> b1 == mi) && (j
                                < out.len() - 1 ==> b1 < mi) && words_started(word_ids, a1) == j;
                        assert(word_fold(tags, word_ids, a1, b1, out2[j]));
                    } else {
                        assert(word_fold(tags, word_ids, mi, ni, out2[j]));
                    }
                }
            },
        }
    }
}

/// An aggregated entity span over one or more contiguous tokens.
#[derive(Debug, Clone, Copy)]
pub struct Span {
    /// The entity of the span.
    pub entity: Entity,
    /// Byte offset where the span starts.
    pub start: usize,
    /// Byte offset where the span ends.
    pub end: usize,
    /// The span's confidence: the best token probability in it.
    pub score: Score,
}

/// A span being accumulated across contiguous BIO tags of one entity.
#[derive(Debug, Clone, Copy)]
pub struct OpenSpan {
    /// The entity of the span.
    pub entity: Entity,
    /// Byte offset where the span starts.
    pub start: usize,
    /// Byte offset where the span ends so far.
    pub end: usize,
    /// Highest token probability seen so far.
    pub max_score: u32,
}

/// `spans` with the open span appended when it is non-empty, its score is a
/// valid probability and it reaches `threshold`.
pub open spec fn flush_spec(spans: Seq<Span>, open: Option<OpenSpan>, threshold: Score) -> Seq<Span> {
    match open {
        Some(o) => if o.start < o.end && o.max_score <= SCORE_ONE_BITS && o.max_score
            >= threshold.spec_bits() {
            spans.push(Span { entity: o.entity, start: o.start, end: o.end, score: Score::spec_from_bits(o.max_score) })
        } else {
            spans
        },
        None => spans,
    }
}

/// One step of merging BIO tags into spans.
pub open spec fn decode_step(state: (Seq<Span>, Option<OpenSpan>), tag: TokenTag, threshold: Score) -> (
    Seq<Span>,
    Option<OpenSpan>,
) {
    let (spans, open) = state;
    match tag.entity {
        Some(entity) => if !tag.is_begin && (open matches Some(o) && o.entity == entity) {
            let o = open->0;
            (spans, Some(OpenSpan { end: tag.end, max_score: max_score(o.max_score, tag.score), ..o }))
        } else {
            (
                flush_spec(spans, open, threshold),
                Some(OpenSpan { entity, start: tag.start, end: tag.end, max_score: tag.score }),
            )
        },
        None => (flush_spec(spans, open, threshold), None),
    }
}

/// The state after merging the first `n` tags.
pub open spec fn decode_prefix(tags: Seq<TokenTag>, threshold: Score, n: nat) -> (
    Seq<Span>,
    Option<OpenSpan>,
)
    decreases n,
{
    if n == 0 {
        (Seq::empty(), None)
    } else {
        decode_step(decode_prefix(tags, threshold, (n - 1) as nat), tags[n - 1], threshold)
    }
}

/// The spans of a tag sequence: runs of tags of one entity (a begin tag or a
/// change of entity starts a new run, an outside tag ends it), each scored by
/// its best token, kept when non-empty and at or above `threshold`.
pub open spec fn decode_spans_spec(tags: Seq<TokenTag>, threshold: Score) -> Seq<Span> {
    let (spans, open) = decode_prefix(tags, threshold, tags.len());
    flush_spec(spans, open, threshold)
}

/// Pushes an open span onto `spans` when it is non-empty, its score is a
/// valid probability and it meets `threshold`.
pub fn flush(spans: &mut Vec<Span>, open: Option<OpenSpan>, threshold: Score)
    ensures
        final(spans)@ == flush_spec(old(spans)@, open, threshold),
{
    let o = match open {
        Some(o) => o,
        None => return,
    };
    if o.end <= o.start {
        return;
    }
    let score = match Score::from_bits(o.max_score) {
        Some(s) => s,
        None => return,
    };
    if score.to_bits() >= threshold.to_bits() {
        spans.push(Span { entity: o.entity, start: o.start, end: o.end, score });
    }
}

/// Merges contiguous BIO tags into spans, keeping those at or above `threshold`.
///
/// A span's score is the highest token probability it contains, so one weak
/// subword cannot sink an otherwise confident entity.
pub fn decode_spans(tags: &[TokenTag], threshold: Score) -> (spans: Vec<Span>)
    ensures
        spans@ == decode_spans_spec(tags@, threshold),
{
    let mut spans: Vec<Span> = Vec::new();
    let mut open: Option<OpenSpan> = None;
    for i in 0..tags.len()
        invariant
            (spans@, open) == decode_prefix(tags@, threshold, i as nat),
    {
        let tag = tags[i];
        match tag.entity {
            Some(entity) => {
                let continues = !tag.is_begin && match open {
                    Some(o) => o.entity == entity,
                    None => false,
                };
                if continues {
                    let o = open.unwrap();
                    let best = if o.max_score >= tag.score {
                        o.max_score
                    } else {
                        tag.score
                    };
                    open = Some(OpenSpan { end: tag.end, max_score: best, ..o });
                } else {
                    flush(&mut spans, open, threshold);
                    open = Some(OpenSpan { entity, start: tag.start, end: tag.end, max_score: tag.score });
                }
            },
            None => {
                flush(&mut spans, open, threshold);
                open = None;
            },
        }
    }
    flush(&mut spans, open, threshold);
    spans
}

/// Outcome of validating a detected value.
#[derive(Debug, Clone, Copy, PartialEq, Eq, Structural)]
pub enum ValidationOutcome {
    /// The value passed validation.
    Valid,
    /// The value failed validation.
    Invalid,
    /// No validation was performed.
    Unknown,
}

/// How a result was obtained.
#[derive(Debug)]
pub struct AnalysisExplanation {
    /// Name of the recognizer that produced the result.
    pub recognizer_name: &'static str,
    /// Name of the pattern that matched, for pattern recognizers.
    pub pattern_name: Option<String>,
    /// Score before any adjustment.
    pub original_score: Score,
    /// Outcome of validating the value.
    pub validation: ValidationOutcome,
    /// Score after adjustments.
    pub final_score: Score,
    /// Context keyword that raised the score, if any.
    pub supportive_keyword: Option<String>,
}

/// A detected entity with its byte span and score.
#[derive(Debug)]
pub struct RecognizerResult {
    /// The detected entity.
    pub entity_type: Entity,
    /// Byte offset where the entity starts.
    pub start: usize,
    /// Byte offset where the entity ends.
    pub end: usize,
    /// Confidence of the detection.
    pub score: Score,
    /// How the result was obtained.
    pub explanation: AnalysisExplanation,
}

/// The result that reports a NER span.
pub open spec fn span_result(span: Span, r: RecognizerResult) -> bool {
    &&& r.entity_type == span.entity
    &&& r.start == span.start
    &&& r.end == span.end
    &&& r.score == span.score
    &&& r.explanation.recognizer_name@ == RECOGNIZER_NAME@
    &&& r.explanation.pattern_name is None
    &&& r.explanation.original_score == span.score
    &&& r.explanation.validation == ValidationOutcome::Unknown
    &&& r.explanation.final_score == span.score
    &&& r.explanation.supportive_keyword is None
}

/// Builds a [`RecognizerResult`] from an aggregated [`Span`].
pub fn span_to_result(span: Span) -> (r: RecognizerResult)
    ensures
        span_result(span, r),
{
    RecognizerResult {
        entity_type: span.entity,
        start: span.start,
        end: span.end,
        score: span.score,
        explanation: AnalysisExplanation {
            recognizer_name: RECOGNIZER_NAME,
            pattern_name: None,
            original_score: span.score,
            validation: ValidationOutcome::Unknown,
            final_score: span.score,
            supportive_keyword: None,
        },
    }
}

/// The model's verdict on one token: its word, the index of its most likely
/// label with that label's probability, and its byte span.
#[derive(Debug, Clone, Copy)]
pub struct TokenPrediction {
    /// The word the token belongs to; `None` for special tokens.
    pub word_id: Option<u32>,
    /// Index of the most likely label.
    pub label_index: usize,
    /// Probability of that label, as the bit pattern of its `f32` value.
    pub score: u32,
    /// Byte offset where the token starts.
    pub start: usize,
    /// Byte offset where the token ends.
    pub end: usize,
}

/// The tag of a predicted token: outside for a special token; otherwise its
/// label parsed as BIO (a label index past the label list reads as `O`),
/// with entities outside `allowed` dropped.
pub open spec fn prediction_tag(p: TokenPrediction, labels: Seq<String>, allowed: Seq<Entity>) -> TokenTag {
    if p.word_id is None {
        outside_tag()
    } else {
        let parsed = if p.label_index < labels.len() {
            parse_bio_spec(labels[p.label_index as int]@)
        } else {
            parse_bio_spec("O"@)
        };
        let entity = match parsed.0 {
            Some(e) => if allowed.contains(e) {
                Some(e)
            } else {
                None
            },
            None => None,
        };
        TokenTag { entity, is_begin: parsed.1, score: p.score, start: p.start, end: p.end }
    }
}

/// Reports whether a decoded entity is permitted by the category filter;
/// non-entity tags are never filtered.
pub fn entity_allowed(allowed: &[Entity], entity: Option<Entity>) -> (r: bool)
    ensures
        r == match entity {
            Some(e) => allowed@.contains(e),
            None => true,
        },
{
    match entity {
        Some(e) => {
            let mut i: usize = 0;
            while i < allowed.len()
                invariant
                    i <= allowed@.len(),
                    entity == Some(e),
                    forall|j: int| 0 <= j < i ==> allowed@[j] != e,
                decreases allowed@.len() - i,
            {
                if allowed[i] == e {
                    assert(allowed@[i as int] == e);
                    return true;
                }
                i = i + 1;
            }
            false
        },
        None => true,
    }
}

/// The tag of one predicted token.
pub fn tag_for_prediction(p: TokenPrediction, labels: &[String], allowed: &[Entity]) -> (t: TokenTag)
    ensures
        t == prediction_tag(p, labels@, allowed@),
{
    if p.word_id.is_none() {
        return TokenTag::outside();
    }
    let parsed = if p.label_index < labels.len() {
        parse_bio(labels[p.label_index].as_str())
    } else {
        parse_bio("O")
    };
    let entity = if entity_allowed(allowed, parsed.0) {
        parsed.0
    } else {
        None
    };
    TokenTag { entity, is_begin: parsed.1, score: p.score, start: p.start, end: p.end }
}

/// A token's tag names only an allowed entity, keeps the token's score and
/// bytes, and a token without a word id gets the outside tag.
pub proof fn lemma_prediction_tag_names_allowed_entity(p: TokenPrediction, labels: Seq<String>, allowed: Seq<Entity>)
    ensures
        prediction_tag(p, labels, allowed).entity matches Some(e) ==> allowed.contains(e),
        p.word_id is Some ==> prediction_tag(p, labels, allowed).score == p.score && prediction_tag(
            p,
            labels,
            allowed,
        ).start == p.start && prediction_tag(p, labels, allowed).end == p.end,
        p.word_id is None ==> prediction_tag(p, labels, allowed) == outside_tag(),
{
}

/// The tags of a row of predicted tokens.
pub open spec fn prediction_tags(preds: Seq<TokenPrediction>, labels: Seq<String>, allowed: Seq<Entity>) -> Seq<
    TokenTag,
> {
    preds.map_values(|p: TokenPrediction| prediction_tag(p, labels, allowed))
}

/// The word ids of a row of predicted tokens.
pub open spec fn prediction_word_ids(preds: Seq<TokenPrediction>) -> Seq<Option<u32>> {
    preds.map_values(|p: TokenPrediction| p.word_id)
}

/// Decodes one row of predicted tokens into NER results: tags per token,
/// folded per word, merged into spans above `threshold`, each reported as a
/// result of this recognizer.
pub fn decode_row(preds: &[TokenPrediction], labels: &[String], allowed: &[Entity], threshold: Score) -> (r:
    Vec<RecognizerResult>)
    ensures
        ({
            let spans = decode_spans_spec(
                aggregate_words_spec(
                    prediction_tags(preds@, labels@, allowed@),
                    prediction_word_ids(preds@),
                ),
                threshold,
            );
            r@.len() == spans.len() && forall|i: int| 0 <= i < spans.len() ==> span_result(
                spans[i],
                #[trigger] r@[i],
            )
        }),
{
    let mut tags: Vec<TokenTag> = Vec::new();
    let mut word_ids: Vec<Option<u32>> = Vec::new();
    for i in 0..preds.len()
        invariant
            tags@ == prediction_tags(preds@.take(i as int), labels@, allowed@),
            word_ids@ == prediction_word_ids(preds@.take(i as int)),
    {
        let p = preds[i];
        tags.push(tag_for_prediction(p, labels, allowed));
        word_ids.push(p.word_id);
        proof {
            assert(prediction_tags(preds@.take(i + 1), labels@, allowed@) =~= prediction_tags(
                preds@.take(i as int),
                labels@,
                allowed@,
            ).push(prediction_tag(preds@[i as int], labels@, allowed@)));
            assert(prediction_word_ids(preds@.take(i + 1)) =~= prediction_word_ids(
                preds@.take(i as int),
            ).push(preds@[i as int].word_id));
        }
    }
    proof {
        assert(preds@.take(preds@.len() as int) =~= preds@);
    }
    let words = aggregate_words(tags.as_slice(), word_ids.as_slice());
    let spans = decode_spans(words.as_slice(), threshold);
    let mut results: Vec<RecognizerResult> = Vec::new();
    for i in 0..spans.len()
        invariant
            results@.len() == i,
            forall|j: int| 0 <= j < i ==> span_result(spans@[j], #[trigger] results@[j]),
    {
        results.push(span_to_result(spans[i]));
    }
    results
}

/// Every span the decoder emits is non-empty, carries a valid score, and
/// reaches the threshold.
pub proof fn lemma_decoded_spans_meet_threshold(tags: Seq<TokenTag>, threshold: Score)
    ensures
        forall|i: int|
            0 <= i < decode_spans_spec(tags, threshold).len() ==> {
                let s = #[trigger] decode_spans_spec(tags, threshold)[i];
                s.start < s.end && s.score.wf() && s.score.spec_bits() >= threshold.spec_bits()
            },
{
    lemma_decode_prefix_meets_threshold(tags, threshold, tags.len());
    let (spans, open) = decode_prefix(tags, threshold, tags.len());
    lemma_flush_meets_threshold(spans, open, threshold);
}

/// Tags `a..b` form a run of one entity that starts at `start`, ends at
/// `end`, and whose best token score is `score`: every tag carries the
/// entity, none after the first is a begin tag, and the run cannot reach
/// further back (it starts the text, or at a begin tag, or after a tag of
/// another entity or none).
pub open spec fn entity_run(
    tags: Seq<TokenTag>,
    a: int,
    b: int,
    entity: Entity,
    start: usize,
    end: usize,
    score: u32,
) -> bool {
    &&& 0 <= a < b <= tags.len()
    &&& tags[a].start == start
    &&& tags[b - 1].end == end
    &&& forall|k: int| a <= k < b ==> (#[trigger] tags[k]).entity == Some(entity)
    &&& forall|k: int| a < k < b ==> !(#[trigger] tags[k]).is_begin
    &&& forall|k: int| a <= k < b ==> (#[trigger] tags[k]).score <= score
    &&& exists|k: int| a <= k < b && (#[trigger] tags[k]).score == score
    &&& (a == 0 || tags[a].is_begin || tags[a - 1].entity != Some(entity))
}

/// Tags `a..b` are the whole run that span `s` reports: an entity run with
/// the span's entity, bounds and score that the next tag (if any) does not
/// continue.
pub open spec fn reports_run(tags: Seq<TokenTag>, a: int, b: int, s: Span) -> bool {
    &&& entity_run(tags, a, b, s.entity, s.start, s.end, s.score.spec_bits())
    &&& (b == tags.len() || tags[b].is_begin || tags[b].entity != Some(s.entity))
}

/// Some tags of `tags` form the whole run that `s` reports.
pub open spec fn reports_some_run(tags: Seq<TokenTag>, s: Span) -> bool {
    exists|a: int, b: int| reports_run(tags, a, b, s)
}

/// Every span the decoder emits reports a whole run of tags of its own
/// entity: a tag of another entity never joins a span, and starts a new one.
/// The span runs from the run's first token to its last, and its score is
/// the best score among the run's tokens.
pub proof fn lemma_decoded_spans_are_entity_runs(tags: Seq<TokenTag>, threshold: Score)
    ensures
        forall|i: int|
            #![trigger decode_spans_spec(tags, threshold)[i]]
            0 <= i < decode_spans_spec(tags, threshold).len() ==> reports_some_run(
                tags,
                decode_spans_spec(tags, threshold)[i],
            ),
{
    lemma_decode_prefix_runs(tags, threshold, tags.len());
    let (spans, open) = decode_prefix(tags, threshold, tags.len());
    lemma_flush_runs(tags, spans, open, tags.len() as int, threshold);
    let d = decode_spans_spec(tags, threshold);
    assert(d == flush_spec(spans, open, threshold));
    assert(spans_report_runs(tags, d));
}

/// Every whole run of one entity whose span is non-empty and whose best
/// score is a valid probability at or above `threshold` is decoded into a
/// span: none is lost.
pub proof fn lemma_qualifying_runs_are_decoded(
    tags: Seq<TokenTag>,
    threshold: Score,
    a: int,
    b: int,
    entity: Entity,
    start: usize,
    end: usize,
    score: u32,
)
    requires
        entity_run(tags, a, b, entity, start, end, score),
        b == tags.len() || tags[b].is_begin || tags[b].entity != Some(entity),
        start < end,
        score <= SCORE_ONE_BITS,
        score >= threshold.spec_bits(),
    ensures
        exists|i: int|
            0 <= i < decode_spans_spec(tags, threshold).len() && (#[trigger] decode_spans_spec(
                tags,
                threshold,
            )[i]).entity == entity && decode_spans_spec(tags, threshold)[i].start == start
                && decode_spans_spec(tags, threshold)[i].end == end && decode_spans_spec(
                tags,
                threshold,
            )[i].score.spec_bits() == score,
{
    let d = decode_spans_spec(tags, threshold);
    let len = tags.len();
    lemma_decode_prefix_runs(tags, threshold, b as nat);
    let (spans_b, open_b) = decode_prefix(tags, threshold, b as nat);
    let o = open_b->0;
    let ao = choose|ao: int| entity_run(tags, ao, b, o.entity, o.start, o.end, o.max_score);
    lemma_runs_ending_together_agree(tags, ao, a, b, o.entity, entity, o.start, start, o.end, end, o.max_score, score);
    let want = Span { entity, start, end, score: Score::spec_from_bits(score) };
    if b < len {
        let (spans_n, open_n) = decode_prefix(tags, threshold, (b + 1) as nat);
        assert(spans_n == spans_b.push(want));
        lemma_decode_prefix_extends(tags, threshold, (b + 1) as nat, len);
        let (spans_l, open_l) = decode_prefix(tags, threshold, len);
        assert(d == flush_spec(spans_l, open_l, threshold));
        let i = spans_b.len() as int;
        assert(spans_l[i] == want);
        assert(d[i] == spans_l[i]);
        assert(d[i].score.spec_bits() == score);
    } else {
        assert(d == spans_b.push(want));
        let i = spans_b.len() as int;
        assert(d[i] == want);
        assert(d[i].score.spec_bits() == score);
    }
}

/// Two runs that end at the same tag are the same run.
proof fn lemma_runs_ending_together_agree(
    tags: Seq<TokenTag>,
    a1: int,
    a2: int,
    b: int,
    e1: Entity,
    e2: Entity,
    s1: usize,
    s2: usize,
    n1: usize,
    n2: usize,
    c1: u32,
    c2: u32,
)
    requires
        entity_run(tags, a1, b, e1, s1, n1, c1),
        entity_run(tags, a2, b, e2, s2, n2, c2),
    ensures
        a1 == a2 && e1 == e2 && s1 == s2 && n1 == n2 && c1 == c2,
{
    assert(tags[b - 1].entity == Some(e1));
    assert(tags[b - 1].entity == Some(e2));
    if a1 < a2 {
        assert(tags[a2].entity == Some(e1));
        assert(tags[a2 - 1].entity == Some(e1));
        assert(!tags[a2].is_begin);
    }
    if a2 < a1 {
        assert(tags[a1].entity == Some(e1));
        assert(tags[a1 - 1].entity == Some(e1));
        assert(!tags[a1].is_begin);
    }
    let k1 = choose|k: int| a1 <= k < b && (#[trigger] tags[k]).score == c1;
    let k2 = choose|k: int| a2 <= k < b && (#[trigger] tags[k]).score == c2;
    assert(tags[k1].score <= c2);
    assert(tags[k2].score <= c1);
}

/// The spans after `m` tags begin the spans after `n >= m` tags.
proof fn lemma_decode_prefix_extends(tags: Seq<TokenTag>, threshold: Score, m: nat, n: nat)
    requires
        m <= n <= tags.len(),
    ensures
        decode_prefix(tags, threshold, m).0.len() <= decode_prefix(tags, threshold, n).0.len(),
        forall|i: int|
            0 <= i < decode_prefix(tags, threshold, m).0.len() ==> #[trigger] decode_prefix(
                tags,
                threshold,
                n,
            ).0[i] == decode_prefix(tags, threshold, m).0[i],
    decreases n - m,
{
    if m < n {
        lemma_decode_prefix_extends(tags, threshold, m, (n - 1) as nat);
        let (spans, open) = decode_prefix(tags, threshold, (n - 1) as nat);
        let spans2 = decode_prefix(tags, threshold, n).0;
        assert(spans2 == spans || spans2 == flush_spec(spans, open, threshold));
        assert(forall|i: int| 0 <= i < spans.len() ==> #[trigger] flush_spec(spans, open, threshold)[i] == spans[i]);
    }
}

/// Every span of `spans` reports a whole run of `tags`.
pub open spec fn spans_report_runs(tags: Seq<TokenTag>, spans: Seq<Span>) -> bool {
    forall|i: int|
        #![trigger spans[i]]
        0 <= i < spans.len() ==> reports_some_run(tags, spans[i])
}

/// The open span after `n` tags is the run of entity tags ending at tag
/// `n - 1`; there is none when tag `n - 1` is an outside tag.
pub open spec fn open_run(tags: Seq<TokenTag>, n: int, open: Option<OpenSpan>) -> bool {
    match open {
        Some(o) => 0 < n && tags[n - 1].entity == Some(o.entity) && exists|a: int|
            entity_run(tags, a, n, o.entity, o.start, o.end, o.max_score),
        None => n == 0 || tags[n - 1].entity is None,
    }
}

proof fn lemma_flush_runs(
    tags: Seq<TokenTag>,
    spans: Seq<Span>,
    open: Option<OpenSpan>,
    n: int,
    threshold: Score,
)
    requires
        0 <= n <= tags.len(),
        spans_report_runs(tags, spans),
        open_run(tags, n, open),
        open matches Some(o) ==> (n == tags.len() || tags[n].is_begin || tags[n].entity != Some(o.entity)),
    ensures
        spans_report_runs(tags, flush_spec(spans, open, threshold)),
{
    let r = flush_spec(spans, open, threshold);
    assert forall|i: int| #![trigger r[i]] 0 <= i < r.len() implies reports_some_run(tags, r[i]) by {
        if i < spans.len() {
            assert(r[i] == spans[i]);
        } else {
            let o = open->0;
            let a = choose|a: int| entity_run(tags, a, n, o.entity, o.start, o.end, o.max_score);
            assert(r[i].score.spec_bits() == o.max_score);
            assert(reports_run(tags, a, n, r[i]));
        }
    }
    assert(spans_report_runs(tags, r));
}

proof fn lemma_decode_prefix_runs(tags: Seq<TokenTag>, threshold: Score, n: nat)
    requires
        n <= tags.len(),
    ensures
        spans_report_runs(tags, decode_prefix(tags, threshold, n).0),
        open_run(tags, n as int, decode_prefix(tags, threshold, n).1),
    decreases n,
{
    if n > 0 {
        let m = (n - 1) as nat;
        lemma_decode_prefix_runs(tags, threshold, m);
        let (spans, open) = decode_prefix(tags, threshold, m);
        let t = tags[m as int];
        let (spans2, open2) = decode_prefix(tags, threshold, n);
        match t.entity {
            Some(e) => {
                if !t.is_begin && (open matches Some(o) && o.entity == e) {
                    let o = open->0;
                    let a = choose|a: int| entity_run(tags, a, m as int, o.entity, o.start, o.end, o.max_score);
                    let o2 = open2->0;
                    assert(spans2 == spans);
                    assert forall|k: int| a <= k < n implies (#[trigger] tags[k]).score <= o2.max_score by {}
                    let w = choose|k: int| a <= k < m && (#[trigger] tags[k]).score == o.max_score;
                    if o.max_score >= t.score {
                        assert(tags[w].score == o2.max_score);
                    } else {
                        assert(tags[m as int].score == o2.max_score);
                    }
                    assert(entity_run(tags, a, n as int, o2.entity, o2.start, o2.end, o2.max_score));
                } else {
                    lemma_flush_runs(tags, spans, open, m as int, threshold);
                    let o2 = open2->0;
                    assert(tags[m as int].score == o2.max_score);
                    assert(entity_run(tags, m as int, n as int, o2.entity, o2.start, o2.end, o2.max_score));
                }
            },
            None => {
                lemma_flush_runs(tags, spans, open, m as int, threshold);
            },
        }
    }
}

/// The spans of an intermediate state are non-empty, valid, and reach the
/// threshold.
pub open spec fn spans_meet_threshold(spans: Seq<Span>, threshold: Score) -> bool {
    forall|i: int|
        0 <= i < spans.len() ==> {
            let s = #[trigger] spans[i];
            s.start < s.end && s.score.wf() && s.score.spec_bits() >= threshold.spec_bits()
        }
}

proof fn lemma_flush_meets_threshold(spans: Seq<Span>, open: Option<OpenSpan>, threshold: Score)
    requires
        spans_meet_threshold(spans, threshold),
    ensures
        spans_meet_threshold(flush_spec(spans, open, threshold), threshold),
{
    let r = flush_spec(spans, open, threshold);
    assert forall|i: int| 0 <= i < r.len() implies {
        let s = #[trigger] r[i];
        s.start < s.end && s.score.wf() && s.score.spec_bits() >= threshold.spec_bits()
    } by {
        if i < spans.len() {
            assert(r[i] == spans[i]);
        }
    }
}

proof fn lemma_decode_prefix_meets_threshold(tags: Seq<TokenTag>, threshold: Score, n: nat)
    requires
        n <= tags.len(),
    ensures
        spans_meet_threshold(decode_prefix(tags, threshold, n).0, threshold),
    decreases n,
{
    if n > 0 {
        lemma_decode_prefix_meets_threshold(tags, threshold, (n - 1) as nat);
        let (spans, open) = decode_prefix(tags, threshold, (n - 1) as nat);
        lemma_flush_meets_threshold(spans, open, threshold);
    }
}

} // verus!

verus! {

/// Longest token sequence the model takes.
pub const MAX_SEQ_LEN: usize = 512;
/// Tokens shared by consecutive windows of an over-long text.
pub const STRIDE: usize = 128;
/// Windows run through the model per forward pass.
pub const NER_BATCH_SIZE: usize = 16;

/// One tokenized window of a text: token ids, attention mask and token type
/// ids, one per token.
pub struct WindowTokens {
    /// Token ids.
    pub ids: Vec<u32>,
    /// Attention mask (1 for a real token).
    pub attention_mask: Vec<u32>,
    /// Token type (segment) ids.
    pub type_ids: Vec<u32>,
}

/// The model inputs of a batch of windows: `[batch, max_len]` tensors laid
/// out row by row, each row right-padded to `max_len`.
pub struct BatchInputs {
    /// Tokens per row.
    pub max_len: usize,
    /// Token ids, padded with the pad id.
    pub input_ids: Vec<i64>,
    /// Attention mask, padded with 0.
    pub attention_mask: Vec<i64>,
    /// Token type ids, padded with 0; empty when the model takes none.
    pub type_ids: Vec<i64>,
}

/// Which per-token sequence of a window.
#[derive(Clone, Copy)]
pub enum TokenField {
    /// The token ids.
    Ids,
    /// The attention mask.
    Mask,
    /// The token type ids.
    TypeIds,
}

/// The sequence `f` of window `w`.
pub open spec fn field_of(w: WindowTokens, f: TokenField) -> Seq<u32> {
    match f {
        TokenField::Ids => w.ids@,
        TokenField::Mask => w.attention_mask@,
        TokenField::TypeIds => w.type_ids@,
    }
}

/// The token count of the longest window.
pub open spec fn longest(ws: Seq<WindowTokens>) -> nat
    decreases ws.len(),
{
    if ws.len() == 0 {
        0
    } else {
        let prev = longest(ws.drop_last());
        if ws.last().ids@.len() > prev {
            ws.last().ids@.len()
        } else {
            prev
        }
    }
}

/// The row length of a batch: its longest window, cut to `MAX_SEQ_LEN`.
pub open spec fn batch_width(ws: Seq<WindowTokens>) -> nat {
    if longest(ws) < MAX_SEQ_LEN {
        longest(ws)
    } else {
        MAX_SEQ_LEN as nat
    }
}

/// A row of `width` values: `row[t]` where the row has a token, else `fill`.
pub open spec fn padded_row(row: Seq<u32>, width: nat, fill: i64) -> Seq<i64> {
    Seq::new(width, |t: int| if t < row.len() { row[t] as i64 } else { fill })
}

/// The tensor of field `f` of the windows: their padded rows, one after
/// another.
pub open spec fn batch_tensor(ws: Seq<WindowTokens>, f: TokenField, width: nat, fill: i64) -> Seq<i64> {
    ws.map_values(|w: WindowTokens| padded_row(field_of(w, f), width, fill)).flatten()
}

/// Appends the padded row of `row` to `out`.
fn push_padded(out: &mut Vec<i64>, row: &Vec<u32>, width: usize, fill: i64)
    ensures
        final(out)@ == old(out)@ + padded_row(row@, width as nat, fill),
{
    let ghost start = out@;
    let mut t: usize = 0;
    while t < width
        invariant
            t <= width,
            out@ == start + padded_row(row@, width as nat, fill).take(t as int),
        decreases width - t,
    {
        let v: i64 = if t < row.len() {
            row[t] as i64
        } else {
            fill
        };
        out.push(v);
        t = t + 1;
        proof {
            assert(padded_row(row@, width as nat, fill).take(t as int) =~= padded_row(
                row@,
                width as nat,
                fill,
            ).take(t - 1).push(v));
        }
    }
    proof {
        assert(padded_row(row@, width as nat, fill).take(width as int) =~= padded_row(
            row@,
            width as nat,
            fill,
        ));
    }
}

/// The tensor of field `f` of `windows`, rows `width` long.
fn pack_field(windows: &[WindowTokens], f: TokenField, width: usize, fill: i64) -> (v: Vec<i64>)
    ensures
        v@ == batch_tensor(windows@, f, width as nat, fill),
{
    let mut v: Vec<i64> = Vec::new();
    for r in 0..windows.len()
        invariant
            v@ == batch_tensor(windows@.take(r as int), f, width as nat, fill),
    {
        let row = match f {
            TokenField::Ids => &windows[r].ids,
            TokenField::Mask => &windows[r].attention_mask,
            TokenField::TypeIds => &windows[r].type_ids,
        };
        proof {
            let g = |w: WindowTokens| padded_row(field_of(w, f), width as nat, fill);
            assert(windows@.take(r + 1) =~= windows@.take(r as int).push(windows@[r as int]));
            assert(windows@.take(r + 1).map_values(g) =~= windows@.take(r as int).map_values(g).push(
                g(windows@[r as int]),
            ));
            windows@.take(r as int).map_values(g).lemma_flatten_push(g(windows@[r as int]));
        }
        push_padded(&mut v, row, width, fill);
    }
    proof {
        assert(windows@.take(windows@.len() as int) =~= windows@);
    }
    v
}

/// Builds the padded inputs of a batch of windows, or `None` when there is
/// nothing to run (no window, or only empty ones). Rows are as long as the
/// longest window, at most `MAX_SEQ_LEN`; token type ids are built only when
/// the model takes them.
pub fn pack_batch(windows: &[WindowTokens], pad_id: i64, needs_type_ids: bool) -> (r: Option<
    BatchInputs,
>)
    requires
        forall|i: int|
            0 <= i < windows@.len() ==> (#[trigger] windows@[i]).attention_mask@.len()
                == windows@[i].ids@.len() && (needs_type_ids ==> windows@[i].type_ids@.len()
                == windows@[i].ids@.len()),
    ensures
        windows@.len() == 0 || batch_width(windows@) == 0 ==> r is None,
        windows@.len() > 0 && batch_width(windows@) > 0 ==> (r matches Some(b) && b.max_len
            == batch_width(windows@) && b.input_ids@ == batch_tensor(
            windows@,
            TokenField::Ids,
            b.max_len as nat,
            pad_id,
        ) && b.attention_mask@ == batch_tensor(windows@, TokenField::Mask, b.max_len as nat, 0)
            && b.type_ids@ == (if needs_type_ids {
            batch_tensor(windows@, TokenField::TypeIds, b.max_len as nat, 0)
        } else {
            Seq::empty()
        })),
{
    let mut longest_len: usize = 0;
    for r in 0..windows.len()
        invariant
            longest_len == longest(windows@.take(r as int)),
    {
        proof {
            assert(windows@.take(r + 1).drop_last() =~= windows@.take(r as int));
        }
        if windows[r].ids.len() > longest_len {
            longest_len = windows[r].ids.len();
        }
    }
    proof {
        assert(windows@.take(windows@.len() as int) =~= windows@);
    }
    let width = if longest_len < MAX_SEQ_LEN {
        longest_len
    } else {
        MAX_SEQ_LEN
    };
    if windows.len() == 0 || width == 0 {
        return None;
    }
    let input_ids = pack_field(windows, TokenField::Ids, width, pad_id);
    let attention_mask = pack_field(windows, TokenField::Mask, width, 0);
    let type_ids = if needs_type_ids {
        pack_field(windows, TokenField::TypeIds, width, 0)
    } else {
        Vec::new()
    };
    Some(BatchInputs { max_len: width, input_ids, attention_mask, type_ids })
}

/// The token id that pads batched rows: the tokenizer's padding id when it
/// pads, else the id of its `[PAD]` token, else 0. Padded positions are
/// masked out, so any vocabulary index serves.
pub fn pad_token_id(padding_id: Option<u32>, pad_token: Option<u32>) -> (id: i64)
    ensures
        id == match padding_id {
            Some(p) => p as int,
            None => match pad_token {
                Some(t) => t as int,
                None => 0,
            },
        },
{
    match padding_id {
        Some(p) => p as i64,
        None => match pad_token {
            Some(t) => t as i64,
            None => 0,
        },
    }
}

/// Whether the model's graph declares a `token_type_ids` input (DistilBERT
/// style models omit it).
pub fn takes_token_type_ids(input_names: &[String]) -> (b: bool)
    ensures
        b == exists|i: int| 0 <= i < input_names@.len() && #[trigger] input_names@[i]@
            == "token_type_ids"@,
{
    let mut i: usize = 0;
    while i < input_names.len()
        invariant
            i <= input_names@.len(),
            forall|j: int| 0 <= j < i ==> #[trigger] input_names@[j]@ != "token_type_ids"@,
        decreases input_names@.len() - i,
    {
        if str_eq(input_names[i].as_str(), "token_type_ids") {
            return true;
        }
        i = i + 1;
    }
    false
}


/// Which window of a text's encoding a route points at.
#[derive(Debug, Clone, Copy, PartialEq, Eq, Structural)]
pub enum WindowSlot {
    /// The overflowing window at this index.
    Overflow(usize),
    /// The main window.
    Main,
}

/// A window to run through the model, and the text its spans belong to.
#[derive(Debug, Clone, Copy, PartialEq, Eq, Structural)]
pub struct WindowRoute {
    /// Index of the text in the batch.
    pub text: usize,
    /// The window of that text's encoding.
    pub slot: WindowSlot,
}

/// The token counts of the windows of one encoded text.
pub struct TextWindows {
    /// Token count of each overflowing window, in order.
    pub overflow_lens: Vec<usize>,
    /// Token count of the main window.
    pub main_len: usize,
}

/// The routes of the non-empty overflowing windows among `lens`, in order.
pub open spec fn overflow_routes(text: usize, lens: Seq<usize>) -> Seq<WindowRoute>
    decreases lens.len(),
{
    if lens.len() == 0 {
        Seq::empty()
    } else {
        let rest = overflow_routes(text, lens.drop_last());
        if lens.last() > 0 {
            rest.push(WindowRoute { text, slot: WindowSlot::Overflow((lens.len() - 1) as usize) })
        } else {
            rest
        }
    }
}

/// The routes of one text: its non-empty overflowing windows, then its main
/// window when that is not empty.
pub open spec fn text_routes(text: usize, lens: Seq<usize>, main_len: usize) -> Seq<WindowRoute> {
    let over = overflow_routes(text, lens);
    if main_len > 0 {
        over.push(WindowRoute { text, slot: WindowSlot::Main })
    } else {
        over
    }
}

/// The windows of a text as plain values: the overflow token counts and the
/// main token count (`None` for a text that was not encoded).
pub open spec fn text_windows_view(t: Option<TextWindows>) -> Option<(Seq<usize>, usize)> {
    match t {
        Some(w) => Some((w.overflow_lens@, w.main_len)),
        None => None,
    }
}

/// The routes of a batch of texts, text by text; a text that was not
/// encoded (an empty one) has none.
pub open spec fn batch_routes(texts: Seq<Option<(Seq<usize>, usize)>>) -> Seq<WindowRoute>
    decreases texts.len(),
{
    if texts.len() == 0 {
        Seq::empty()
    } else {
        let rest = batch_routes(texts.drop_last());
        match texts.last() {
            Some((lens, main_len)) => rest + text_routes((texts.len() - 1) as usize, lens, main_len),
            None => rest,
        }
    }
}

/// Routes the windows of a batch of texts to the model: for each encoded text
/// in order, its non-empty overflowing windows, then its main window when it
/// is not empty.
pub fn route_windows(texts: &Vec<Option<TextWindows>>) -> (r: Vec<WindowRoute>)
    ensures
        r@ == batch_routes(texts@.map_values(|t: Option<TextWindows>| text_windows_view(t))),
{
    let ghost views = texts@.map_values(|t: Option<TextWindows>| text_windows_view(t));
    let mut routes: Vec<WindowRoute> = Vec::new();
    let mut i: usize = 0;
    while i < texts.len()
        invariant
            views == texts@.map_values(|t: Option<TextWindows>| text_windows_view(t)),
            i <= texts.len(),
            routes@ == batch_routes(views.take(i as int)),
        decreases texts.len() - i,
    {
        proof {
            assert(views.take(i + 1).drop_last() =~= views.take(i as int));
            assert(views.take(i + 1).last() == text_windows_view(texts@[i as int]));
        }
        match &texts[i] {
            Some(w) => {
                let ghost before = routes@;
                let mut j: usize = 0;
                while j < w.overflow_lens.len()
                    invariant
                        j <= w.overflow_lens.len(),
                        routes@ == before + overflow_routes(i, w.overflow_lens@.take(j as int)),
                    decreases w.overflow_lens.len() - j,
                {
                    proof {
                        assert(w.overflow_lens@.take(j + 1).drop_last() =~= w.overflow_lens@.take(j as int));
                    }
                    if w.overflow_lens[j] > 0 {
                        routes.push(WindowRoute { text: i, slot: WindowSlot::Overflow(j) });
                    }
                    j = j + 1;
                }
                proof {
                    assert(w.overflow_lens@.take(w.overflow_lens@.len() as int) =~= w.overflow_lens@);
                }
                if w.main_len > 0 {
                    routes.push(WindowRoute { text: i, slot: WindowSlot::Main });
                }
                proof {
                    assert(routes@ =~= before + text_routes(i, w.overflow_lens@, w.main_len));
                }
            },
            None => {},
        }
        i = i + 1;
    }
    proof {
        assert(views.take(texts@.len() as int) =~= views);
    }
    routes
}

/// The half-open index ranges `[start, end)` that cut `start..n` into
/// consecutive batches of at most `size`.
pub open spec fn batch_ranges(start: nat, n: nat, size: nat) -> Seq<(nat, nat)>
    decreases n - start,
    when size > 0
{
    if start >= n {
        Seq::empty()
    } else {
        let end = if start + size < n {
            start + size
        } else {
            n
        };
        seq![(start, end)] + batch_ranges(end, n, size)
    }
}

/// The view of a list of index ranges.
pub open spec fn ranges_view(v: Seq<(usize, usize)>) -> Seq<(nat, nat)> {
    v.map_values(|r: (usize, usize)| (r.0 as nat, r.1 as nat))
}

/// Cuts `n` windows into consecutive batches of at most `size`: the ranges
/// `[0, size)`, `[size, 2 * size)`, ... up to `n`.
pub fn window_batches(n: usize, size: usize) -> (r: Vec<(usize, usize)>)
    requires
        size > 0,
    ensures
        ranges_view(r@) == batch_ranges(0, n as nat, size as nat),
{
    let mut r: Vec<(usize, usize)> = Vec::new();
    let mut start: usize = 0;
    while start < n
        invariant
            size > 0,
            start <= n,
            ranges_view(r@) + batch_ranges(start as nat, n as nat, size as nat) == batch_ranges(
                0,
                n as nat,
                size as nat,
            ),
        decreases n - start,
    {
        let end = if size < n - start {
            start + size
        } else {
            n
        };
        proof {
            assert(ranges_view(r@.push((start, end))) =~= ranges_view(r@).push((start as nat, end as nat)));
            assert(ranges_view(r@).push((start as nat, end as nat)) + batch_ranges(end as nat, n as nat, size as nat)
                =~= ranges_view(r@) + batch_ranges(start as nat, n as nat, size as nat));
        }
        r.push((start, end));
        start = end;
    }
    proof {
        assert(ranges_view(r@) + batch_ranges(start as nat, n as nat, size as nat) =~= ranges_view(r@));
    }
    r
}


/// The batches cut `start..n` into consecutive, non-empty ranges of at most
/// `size` windows: the first starts at `start`, each starts where the one
/// before ended, and the last ends at `n`.
pub proof fn lemma_batch_ranges_partition(start: nat, n: nat, size: nat)
    requires
        size > 0,
        start <= n,
    ensures
        batch_ranges(start, n, size).len() == 0 <==> start == n,
        forall|i: int|
            0 <= i < batch_ranges(start, n, size).len() ==> #[trigger] batch_ranges(start, n, size)[i].0
                < batch_ranges(start, n, size)[i].1 <= batch_ranges(start, n, size)[i].0 + size,
        forall|i: int|
            1 <= i < batch_ranges(start, n, size).len() ==> #[trigger] batch_ranges(start, n, size)[i].0
                == batch_ranges(start, n, size)[i - 1].1,
        batch_ranges(start, n, size).len() > 0 ==> batch_ranges(start, n, size)[0].0 == start
            && batch_ranges(start, n, size).last().1 == n,
    decreases n - start,
{
    if start < n {
        let end = if start + size < n {
            start + size
        } else {
            n
        };
        lemma_batch_ranges_partition(end, n, size);
        let r = batch_ranges(start, n, size);
        let rest = batch_ranges(end, n, size);
        assert(r == seq![(start, end)] + rest);
        assert forall|i: int| 1 <= i < r.len() implies #[trigger] r[i].0 == r[i - 1].1 by {
            if i >= 2 {
                assert(r[i] == rest[i - 1]);
                assert(r[i - 1] == rest[i - 2]);
            }
        }
        assert forall|i: int| 0 <= i < r.len() implies #[trigger] r[i].0 < r[i].1 <= r[i].0 + size by {
            if i >= 1 {
                assert(r[i] == rest[i - 1]);
            }
        }
        if rest.len() > 0 {
            assert(r.last() == rest.last());
        }
    }
}

} // verus!
