//! The request sent to the generative service, put together from static
//! templates by literal substitution of placeholder tokens.

use crate::seed::is_seed;
use crate::text::{
    join, joined, lemma_no_occurrence, lemma_none_left, lemma_same_length,
    lemma_stretch_copied, lemma_token_replaced, lemma_values_told_apart, occurs_in, substitute,
    substituted, texts,
};
use vstd::prelude::*;

verus! {

/// Stands in the prompt template where the seed goes.
pub const SEED_TOKEN: &'static str = "<seed>";

/// Stands in the prompt template where the article titles go.
pub const ARTICLES_TOKEN: &'static str = "<articles>";

/// Stands in the request template where the system instruction goes.
pub const SYSTEM_INSTRUCTION_TOKEN: &'static str = "<system_instruction>";

/// Stands in the request template where the prompt goes.
pub const PROMPT_TOKEN: &'static str = "<prompt>";

/// Stands between two article titles in the prompt.
pub const TITLE_SEPARATOR: &'static str = ", ";

/// The static texts a request is made from.
#[derive(Debug, Clone, PartialEq, Eq)]
pub struct Templates {
    /// The prompt, with `<seed>` and `<articles>` where the enriched pipeline
    /// fills them in.
    pub prompt: String,
    /// The system instruction of the enriched pipeline.
    pub system_instruction: String,
    /// The request body, with `<prompt>` and, for the enriched pipeline,
    /// `<system_instruction>`.
    pub request: String,
}

/// The templates as mathematics sees them.
pub struct TemplatesModel {
    pub prompt: Seq<char>,
    pub system_instruction: Seq<char>,
    pub request: Seq<char>,
}

impl View for Templates {
    type V = TemplatesModel;

    open spec fn view(&self) -> TemplatesModel {
        TemplatesModel {
            prompt: self.prompt@,
            system_instruction: self.system_instruction@,
            request: self.request@,
        }
    }
}

/// The prompt template with the seed for `<seed>` and then the titles,
/// joined by `", "`, for `<articles>`.
pub open spec fn prompt_text(template: Seq<char>, seed: Seq<char>, titles: Seq<Seq<char>>) -> Seq<
    char,
> {
    substituted(
        substituted(template, SEED_TOKEN@, seed),
        ARTICLES_TOKEN@,
        joined(titles, TITLE_SEPARATOR@),
    )
}

/// The request template with the system instruction for
/// `<system_instruction>` and then `prompt` for `<prompt>`.
pub open spec fn request_text(templates: TemplatesModel, prompt: Seq<char>) -> Seq<char> {
    substituted(
        substituted(templates.request, SYSTEM_INSTRUCTION_TOKEN@, templates.system_instruction),
        PROMPT_TOKEN@,
        prompt,
    )
}

/// The request of the enriched pipeline for a seed and a list of titles.
pub open spec fn enriched_request_text(
    templates: TemplatesModel,
    seed: Seq<char>,
    titles: Seq<Seq<char>>,
) -> Seq<char> {
    request_text(templates, prompt_text(templates.prompt, seed, titles))
}

/// The request of the plain pipeline: the prompt template as it is for
/// `<prompt>`, and nothing else replaced.
pub open spec fn plain_request_text(templates: TemplatesModel) -> Seq<char> {
    substituted(templates.request, PROMPT_TOKEN@, templates.prompt)
}

/// Fills the seed and the titles into a prompt template.
pub fn assemble_prompt(template: &str, seed: &str, titles: &Vec<String>) -> (out: String)
    ensures
        out@ == prompt_text(template@, seed@, texts(titles@)),
{
    let seeded = substitute(template, SEED_TOKEN, seed);
    let articles = join(titles, TITLE_SEPARATOR);
    substitute(seeded.as_str(), ARTICLES_TOKEN, articles.as_str())
}

impl Templates {
    /// Fills the system instruction and `prompt` into the request template.
    pub fn assemble_request(&self, prompt: &str) -> (out: String)
        ensures
            out@ == request_text(self@, prompt@),
    {
        let instructed = substitute(
            self.request.as_str(),
            SYSTEM_INSTRUCTION_TOKEN,
            self.system_instruction.as_str(),
        );
        substitute(instructed.as_str(), PROMPT_TOKEN, prompt)
    }

    /// The request body of the enriched pipeline.
    pub fn enriched_request(&self, seed: &str, titles: &Vec<String>) -> (out: String)
        ensures
            out@ == enriched_request_text(self@, seed@, texts(titles@)),
    {
        let prompt = assemble_prompt(self.prompt.as_str(), seed, titles);
        self.assemble_request(prompt.as_str())
    }

    /// The request body of the plain pipeline.
    pub fn plain_request(&self) -> (out: String)
        ensures
            out@ == plain_request_text(self@),
    {
        substitute(self.request.as_str(), PROMPT_TOKEN, self.prompt.as_str())
    }
}

/// Filling a prompt template puts the seed exactly where `<seed>` stood and
/// the joined titles exactly where `<articles>` stood, and leaves the rest as
/// it was: this holds of a template that names `<seed>` and then
/// `<articles>` once each and has no other `<`, and of a seed without `<`.
pub proof fn lemma_prompt_filled_in_place(
    before: Seq<char>,
    between: Seq<char>,
    after: Seq<char>,
    seed: Seq<char>,
    titles: Seq<Seq<char>>,
)
    requires
        !before.contains('<'),
        !between.contains('<'),
        !after.contains('<'),
        !seed.contains('<'),
    ensures
        prompt_text(before + SEED_TOKEN@ + between + ARTICLES_TOKEN@ + after, seed, titles)
            == before + seed + between + joined(titles, TITLE_SEPARATOR@) + after,
{
    reveal_strlit("<seed>");
    reveal_strlit("<articles>");
    let seed_token = SEED_TOKEN@;
    let articles_token = ARTICLES_TOKEN@;
    let articles = joined(titles, TITLE_SEPARATOR@);
    let none = Seq::<char>::empty();
    let template = before + seed_token + between + articles_token + after;
    let tail = articles_token + after;

    // The first pass: `<seed>` is replaced, `<articles>` is left alone.
    assert(substituted(tail, seed_token, seed) == tail) by {
        let inner = tail.skip(1);
        assert(tail.subrange(0, 6)[1] == 'a');
        assert(!crate::text::occurs_at(tail, seed_token, 0));
        assert forall|i: int| 0 <= i < inner.len() implies inner[i] != '<' by {
            if i < 9 {
                assert(inner[i] == articles_token[i + 1]);
            } else {
                assert(inner[i] == after[i - 9]);
                assert(after.contains(after[i - 9]));
            }
        }
        lemma_stretch_copied(inner, none, seed_token, seed);
        assert(inner + none =~= inner);
        assert(substituted(none, seed_token, seed) =~= none);
        assert(seq![tail[0]] + inner =~= tail);
    }
    assert(substituted(template, seed_token, seed) == before + seed + between + tail) by {
        assert(template =~= before + (seed_token + (between + tail)));
        lemma_stretch_copied(before, seed_token + (between + tail), seed_token, seed);
        lemma_token_replaced(between + tail, seed_token, seed);
        lemma_stretch_copied(between, tail, seed_token, seed);
        assert(before + (seed + (between + tail)) =~= before + seed + between + tail);
    }

    // The second pass: `<articles>` is replaced.
    let head = before + seed + between;
    assert(!head.contains('<')) by {
        assert forall|i: int| 0 <= i < head.len() implies head[i] != '<' by {
            if i < before.len() {
                assert(before.contains(before[i]));
            } else if i < before.len() + seed.len() {
                assert(seed.contains(seed[i - before.len()]));
            } else {
                assert(between.contains(between[i - before.len() - seed.len()]));
            }
        }
    }
    assert(substituted(head + tail, articles_token, articles) == head + articles + after) by {
        lemma_stretch_copied(head, tail, articles_token, articles);
        lemma_token_replaced(after, articles_token, articles);
        lemma_stretch_copied(after, none, articles_token, articles);
        assert(after + none =~= after);
        assert(substituted(none, articles_token, articles) =~= none);
        assert(head + (articles + after) =~= head + articles + after);
    }
}

/// Once a prompt template of that form is filled in with titles that hold no
/// `<`, neither `<seed>` nor `<articles>` is left in the prompt.
pub proof fn lemma_no_placeholder_left(
    before: Seq<char>,
    between: Seq<char>,
    after: Seq<char>,
    seed: Seq<char>,
    titles: Seq<Seq<char>>,
)
    requires
        !before.contains('<'),
        !between.contains('<'),
        !after.contains('<'),
        !seed.contains('<'),
        !joined(titles, TITLE_SEPARATOR@).contains('<'),
    ensures
        !occurs_in(
            prompt_text(before + SEED_TOKEN@ + between + ARTICLES_TOKEN@ + after, seed, titles),
            SEED_TOKEN@,
        ),
        !occurs_in(
            prompt_text(before + SEED_TOKEN@ + between + ARTICLES_TOKEN@ + after, seed, titles),
            ARTICLES_TOKEN@,
        ),
{
    reveal_strlit("<seed>");
    reveal_strlit("<articles>");
    lemma_prompt_filled_in_place(before, between, after, seed, titles);
    let articles = joined(titles, TITLE_SEPARATOR@);
    let prompt = before + seed + between + articles + after;
    assert forall|i: int| 0 <= i < prompt.len() implies prompt[i] != '<' by {
        let a = before.len();
        let b = a + seed.len();
        let c = b + between.len();
        let d = c + articles.len();
        if i < a {
            assert(before.contains(before[i]));
        } else if i < b {
            assert(seed.contains(seed[i - a]));
        } else if i < c {
            assert(between.contains(between[i - b]));
        } else if i < d {
            assert(articles.contains(articles[i - c]));
        } else {
            assert(after.contains(after[i - d]));
        }
    }
    lemma_no_occurrence(prompt, SEED_TOKEN@);
    lemma_no_occurrence(prompt, ARTICLES_TOKEN@);
}

/// Whether a value can stand for a placeholder in any template without
/// leaving a placeholder behind: it has neither `<` nor `>` and at least
/// nine characters, one less than the longer token.
pub open spec fn fills_cleanly(value: Seq<char>) -> bool {
    &&& value.len() >= 9
    &&& !value.contains('<')
    &&& !value.contains('>')
}

/// Every seed fills cleanly: it has 64 letters and digits.
pub proof fn lemma_seed_fills_cleanly(seed: Seq<char>)
    requires
        is_seed(seed),
    ensures
        fills_cleanly(seed),
{
    assert forall|i: int| 0 <= i < seed.len() implies seed[i] != '<' && seed[i] != '>' by {
        assert(crate::seed::is_alphanumeric(seed[i]));
    }
}

/// Whatever the template, the filled prompt holds neither `<seed>` nor
/// `<articles>`, where the seed and the joined titles fill cleanly.
pub proof fn lemma_prompt_free_of_placeholders(
    template: Seq<char>,
    seed: Seq<char>,
    titles: Seq<Seq<char>>,
)
    requires
        fills_cleanly(seed),
        fills_cleanly(joined(titles, TITLE_SEPARATOR@)),
    ensures
        !occurs_in(prompt_text(template, seed, titles), SEED_TOKEN@),
        !occurs_in(prompt_text(template, seed, titles), ARTICLES_TOKEN@),
{
    reveal_strlit("<seed>");
    reveal_strlit("<articles>");
    let articles = joined(titles, TITLE_SEPARATOR@);
    let seeded = substituted(template, SEED_TOKEN@, seed);
    lemma_none_left(template, SEED_TOKEN@, seed, SEED_TOKEN@);
    lemma_none_left(seeded, ARTICLES_TOKEN@, articles, ARTICLES_TOKEN@);
    lemma_none_left(seeded, ARTICLES_TOKEN@, articles, SEED_TOKEN@);
}

/// Two seeds of one length that differ give requests of one length that
/// differ: this holds of a prompt template that names `<seed>` and then
/// `<articles>` once each and has no other `<`, of seeds without `<`, and
/// of a request template that still holds `<prompt>` once the system
/// instruction is filled in.
pub proof fn lemma_seeds_tell_requests_apart(
    templates: TemplatesModel,
    before: Seq<char>,
    between: Seq<char>,
    after: Seq<char>,
    seed: Seq<char>,
    other_seed: Seq<char>,
    titles: Seq<Seq<char>>,
)
    requires
        templates.prompt == before + SEED_TOKEN@ + between + ARTICLES_TOKEN@ + after,
        !before.contains('<'),
        !between.contains('<'),
        !after.contains('<'),
        !seed.contains('<'),
        !other_seed.contains('<'),
        seed.len() == other_seed.len(),
        seed != other_seed,
        occurs_in(
            substituted(
                templates.request,
                SYSTEM_INSTRUCTION_TOKEN@,
                templates.system_instruction,
            ),
            PROMPT_TOKEN@,
        ),
    ensures
        enriched_request_text(templates, seed, titles) != enriched_request_text(
            templates,
            other_seed,
            titles,
        ),
        enriched_request_text(templates, seed, titles).len() == enriched_request_text(
            templates,
            other_seed,
            titles,
        ).len(),
{
    reveal_strlit("<prompt>");
    let articles = joined(titles, TITLE_SEPARATOR@);
    let prompt = before + seed + between + articles + after;
    let other_prompt = before + other_seed + between + articles + after;
    lemma_prompt_filled_in_place(before, between, after, seed, titles);
    lemma_prompt_filled_in_place(before, between, after, other_seed, titles);
    if prompt == other_prompt {
        let from = before.len() as int;
        let to = from + seed.len();
        assert(prompt.subrange(from, to) =~= seed);
        assert(other_prompt.subrange(from, to) =~= other_seed);
    }
    let instructed = substituted(
        templates.request,
        SYSTEM_INSTRUCTION_TOKEN@,
        templates.system_instruction,
    );
    lemma_values_told_apart(instructed, PROMPT_TOKEN@, prompt, other_prompt);
    lemma_same_length(instructed, PROMPT_TOKEN@, prompt, other_prompt);
}

} // verus!
