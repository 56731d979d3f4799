use daily_knowledge::prompt::{
    assemble_prompt, Templates, ARTICLES_TOKEN, PROMPT_TOKEN, SEED_TOKEN,
    SYSTEM_INSTRUCTION_TOKEN, TITLE_SEPARATOR,
};

fn titles(items: &[&str]) -> Vec<String> {
    items.iter().map(|item| item.to_string()).collect()
}

fn templates() -> Templates {
    Templates {
        prompt: "Seed <seed>. Avoid: <articles>.".to_string(),
        system_instruction: "Answer in JSON.".to_string(),
        request: "{\"system\":\"<system_instruction>\",\"prompt\":\"<prompt>\"}".to_string(),
    }
}

#[test]
fn tokens_are_the_documented_ones() {
    assert_eq!(SEED_TOKEN, "<seed>");
    assert_eq!(ARTICLES_TOKEN, "<articles>");
    assert_eq!(SYSTEM_INSTRUCTION_TOKEN, "<system_instruction>");
    assert_eq!(PROMPT_TOKEN, "<prompt>");
    assert_eq!(TITLE_SEPARATOR, ", ");
}

#[test]
fn prompt_holds_seed_and_titles_in_place() {
    let prompt = assemble_prompt("Seed: <seed>; articles: <articles>.", "S", &titles(&["A", "B"]));
    assert_eq!(prompt, "Seed: S; articles: A, B.");
    assert!(!prompt.contains("<seed>"));
    assert!(!prompt.contains("<articles>"));
}

#[test]
fn prompt_without_titles_leaves_the_place_empty() {
    assert_eq!(assemble_prompt("[<seed>|<articles>]", "S", &Vec::new()), "[S|]");
}

#[test]
fn prompt_fills_every_occurrence() {
    let prompt = assemble_prompt("<seed><articles><seed>", "S", &titles(&["A"]));
    assert_eq!(prompt, "SAS");
}

#[test]
fn prompt_fills_the_seed_before_the_titles() {
    // A seed that spells the articles token is replaced in the second pass.
    let prompt = assemble_prompt("<seed>", "<articles>", &titles(&["A", "B"]));
    assert_eq!(prompt, "A, B");
    // A title that spells the seed token is left as it is.
    let prompt = assemble_prompt("<seed>/<articles>", "S", &titles(&["<seed>"]));
    assert_eq!(prompt, "S/<seed>");
}

#[test]
fn prompt_is_not_escaped() {
    let prompt = assemble_prompt("<articles>", "S", &titles(&["say \"hi\"", "a\\b"]));
    assert_eq!(prompt, "say \"hi\", a\\b");
}

#[test]
fn request_holds_instruction_and_prompt() {
    let request = templates().assemble_request("What?");
    assert_eq!(request, "{\"system\":\"Answer in JSON.\",\"prompt\":\"What?\"}");
}

#[test]
fn request_fills_the_instruction_before_the_prompt() {
    let templates = Templates {
        prompt: String::new(),
        system_instruction: "<prompt>".to_string(),
        request: "<system_instruction>|<prompt>".to_string(),
    };
    assert_eq!(templates.assemble_request("P"), "P|P");
    // A prompt that spells the instruction token is left as it is.
    let templates = Templates {
        prompt: String::new(),
        system_instruction: "I".to_string(),
        request: "<system_instruction>|<prompt>".to_string(),
    };
    assert_eq!(templates.assemble_request("<system_instruction>"), "I|<system_instruction>");
}

#[test]
fn enriched_request_nests_the_filled_prompt() {
    let request = templates().enriched_request("S", &titles(&["A", "B"]));
    assert_eq!(
        request,
        "{\"system\":\"Answer in JSON.\",\"prompt\":\"Seed S. Avoid: A, B.\"}"
    );
}

#[test]
fn plain_request_takes_the_prompt_as_it_is() {
    let request = templates().plain_request();
    assert_eq!(
        request,
        "{\"system\":\"<system_instruction>\",\"prompt\":\"Seed <seed>. Avoid: <articles>.\"}"
    );
}

#[test]
fn same_inputs_give_the_same_request() {
    let first = templates().enriched_request("fixedseed", &titles(&["A", "B", "C"]));
    let second = templates().enriched_request("fixedseed", &titles(&["A", "B", "C"]));
    assert_eq!(first, second);
    assert_eq!(first.as_bytes(), second.as_bytes());
}

#[test]
fn another_seed_gives_another_request() {
    let first = templates().enriched_request("one", &titles(&["A"]));
    let second = templates().enriched_request("two", &titles(&["A"]));
    assert_ne!(first, second);
}

#[test]
fn long_values_leave_no_placeholder_in_any_template() {
    let seed = "s0e1e2d3".repeat(8);
    let long_titles = titles(&["seed", "articles", "e"]);
    for template in [
        "<s<seed>d>",
        "<arti<articles>cles>",
        "<se<articles>ed><seed><articles",
        "<seed<seed>><<articles>articles>",
        "<<<seed>>><<<articles>>>",
    ] {
        let prompt = assemble_prompt(template, &seed, &long_titles);
        assert!(!prompt.contains("<seed>"), "{} gives {}", template, prompt);
        assert!(!prompt.contains("<articles>"), "{} gives {}", template, prompt);
    }
}

#[test]
fn short_values_can_leave_a_placeholder() {
    assert_eq!(assemble_prompt("<s<seed>d>", "ee", &Vec::new()), "<seed>");
    assert_eq!(assemble_prompt("<se<articles>ed>", "S", &Vec::new()), "<seed>");
}

#[test]
fn seeds_of_one_length_give_requests_of_one_length() {
    let first = templates().enriched_request(&"a".repeat(64), &titles(&["A", "B"]));
    let second = templates().enriched_request(&"b".repeat(64), &titles(&["A", "B"]));
    assert_ne!(first, second);
    assert_eq!(first.len(), second.len());
}
