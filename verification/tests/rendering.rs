use cardbot::card::{get_ascii_titlecase, get_card_embed_text, get_card_footer_text, footer_from_lowered, Card};
use cardbot::pipeline::{card_url, message_for_card, reply_for, thumbnail_url, Reply, SearchOutcome, SearchResult};
use cardbot::rich_text::{render_rich_string, RichElement};

fn plain(text: &str) -> RichElement {
    RichElement::PlainText(text.to_string())
}

fn card(card_type: &str, cost: i64, stats: (i64, i64, i64)) -> Card {
    Card {
        id: "d1".to_string(),
        name: "Dragon".to_string(),
        card_type: card_type.to_string(),
        cost,
        health: stats.0,
        defense: stats.1,
        power: stats.2,
        description: vec![plain("A fierce beast.")],
        flavor_text: String::new(),
        image_asset_id: "dragon".to_string(),
    }
}

fn with_flavor(flavor: &str) -> Card {
    let mut c = card("Creature", 3, (2, 1, 4));
    c.flavor_text = flavor.to_string();
    c
}

#[test]
fn creature_footer_has_cost_and_stats() {
    assert_eq!(get_card_footer_text(&card("Creature", 3, (2, 1, 4))), "Creature :: 3 Blood :: 2/1/4");
}

#[test]
fn command_footer_has_no_stats() {
    assert_eq!(get_card_footer_text(&card("Command", 5, (9, 9, 9))), "Command :: 5 Blood");
    assert_eq!(get_card_footer_text(&card("quick COMMAND", 0, (1, 2, 3))), "Quick COMMAND :: 0 Blood");
}

#[test]
fn flask_footer_is_the_type_alone() {
    assert_eq!(get_card_footer_text(&card("flask of fire", 2, (1, 1, 1))), "Flask of fire");
    assert_eq!(get_card_footer_text(&card("FLASK", 2, (1, 1, 1))), "FLASK");
    assert_eq!(get_card_footer_text(&card("Command Flask", 2, (1, 1, 1))), "Command Flask");
}

#[test]
fn footer_of_an_empty_type() {
    assert_eq!(get_card_footer_text(&card("", 1, (2, 3, 4))), " :: 1 Blood :: 2/3/4");
}

#[test]
fn footer_numbers_are_decimal() {
    assert_eq!(
        get_card_footer_text(&card("Creature", 1234567890, (10, 0, 100))),
        "Creature :: 1234567890 Blood :: 10/0/100"
    );
    assert_eq!(
        get_card_footer_text(&card("Creature", -1, (i64::MIN, i64::MAX, -20))),
        "Creature :: -1 Blood :: -9223372036854775808/9223372036854775807/-20"
    );
}

#[test]
fn footer_goes_by_the_lowered_type_it_is_given() {
    let c = card("Creature", 3, (2, 1, 4));
    assert_eq!(footer_from_lowered(&c, "creature"), "Creature :: 3 Blood :: 2/1/4");
    assert_eq!(footer_from_lowered(&c, "a flask"), "Creature");
    assert_eq!(footer_from_lowered(&c, "command"), "Creature :: 3 Blood");
    assert_eq!(footer_from_lowered(&c, "flas command k"), "Creature :: 3 Blood");
}

#[test]
fn titlecase_touches_the_first_character_only() {
    assert_eq!(get_ascii_titlecase("flask of fire"), "Flask of fire");
    assert_eq!(get_ascii_titlecase(""), "");
    assert_eq!(get_ascii_titlecase("a"), "A");
    assert_eq!(get_ascii_titlecase("z z"), "Z z");
    assert_eq!(get_ascii_titlecase("Already"), "Already");
    assert_eq!(get_ascii_titlecase("1up"), "1up");
    assert_eq!(get_ascii_titlecase("élan"), "élan");
    assert_eq!(get_ascii_titlecase("{x"), "{x");
    assert_eq!(get_ascii_titlecase("`x"), "`x");
}

#[test]
fn plain_text_is_rendered_unchanged() {
    let doc = vec![plain("A fierce "), plain(""), plain("beast.")];
    assert_eq!(render_rich_string(&doc), "A fierce beast.");
    assert_eq!(render_rich_string(&Vec::new()), "");
}

#[test]
fn references_render_as_their_display_text() {
    let doc = vec![
        plain("Summon "),
        RichElement::CardReference { display: "an Imp".to_string(), identity: "imp".to_string() },
        RichElement::LineBreak,
        RichElement::SpecificCardReference { display: "Hellhound".to_string(), id: "h7".to_string() },
        plain(" or "),
        RichElement::CardSearchReference { display: "any flask".to_string(), search: "t:flask".to_string() },
    ];
    assert_eq!(render_rich_string(&doc), "Summon an Imp\nHellhound or any flask");
}

#[test]
fn saga_lines_are_numbered_from_one() {
    let doc = vec![RichElement::Saga(vec![vec![plain("Step one")], vec![plain("Step two")]])];
    assert_eq!(render_rich_string(&doc), "\n1. Step one\n2. Step two\n");
}

#[test]
fn saga_keeps_what_stands_before_it() {
    let doc = vec![plain("Do:"), RichElement::Saga(vec![vec![plain("this")]]), plain("Done.")];
    assert_eq!(render_rich_string(&doc), "Do:\n1. this\nDone.");
    assert_eq!(render_rich_string(&vec![RichElement::Saga(Vec::new())]), "\n");
}

#[test]
fn nested_saga_restarts_its_numbers() {
    let inner = RichElement::Saga(vec![vec![plain("x")], vec![plain("y")]]);
    let doc = vec![RichElement::Saga(vec![
        vec![plain("a")],
        vec![plain("b"), inner],
        vec![plain("c")],
    ])];
    assert_eq!(render_rich_string(&doc), "\n1. a\n2. b\n1. x\n2. y\n\n3. c\n");
}

#[test]
fn long_saga_counts_past_nine() {
    let lines: Vec<Vec<RichElement>> = (0..11).map(|_| vec![plain("x")]).collect();
    let text = render_rich_string(&vec![RichElement::Saga(lines)]);
    assert!(text.ends_with("\n9. x\n10. x\n11. x\n"));
}

#[test]
fn description_without_flavor_is_the_rules_text() {
    assert_eq!(get_card_embed_text(&card("Creature", 3, (2, 1, 4))), "A fierce beast.");
}

#[test]
fn flavor_lines_are_set_in_italics() {
    assert_eq!(
        get_card_embed_text(&with_flavor("Fear it.\nRun.")),
        "A fierce beast.\n\n-# *Fear it.*\n\n-# *Run.*"
    );
}

#[test]
fn flavor_with_an_asterisk_is_left_as_written() {
    assert_eq!(
        get_card_embed_text(&with_flavor("Fear it.\nIt *burns*.")),
        "A fierce beast.\n\n-# Fear it.\n\n-# It *burns*."
    );
}

#[test]
fn blank_flavor_lines_are_skipped() {
    assert_eq!(
        get_card_embed_text(&with_flavor("\nOne.\n\n\r\nTwo.\r\n")),
        "A fierce beast.\n\n-# *One.*\n\n-# *Two.*"
    );
    assert_eq!(get_card_embed_text(&with_flavor("\n\n")), "A fierce beast.");
    assert_eq!(get_card_embed_text(&with_flavor("End\r")), "A fierce beast.\n\n-# *End\r*");
}

#[test]
fn addresses_are_built_from_the_ids() {
    assert_eq!(card_url("d1"), "https://hemolymph.net/card/d1");
    assert_eq!(
        thumbnail_url("dragon"),
        "https://file.garden/ZJSEzoaUL3bz8vYK/bloodlesscards/dragon.png"
    );
}

#[test]
fn card_message_has_all_its_parts() {
    let shown = message_for_card(&card("Creature", 3, (2, 1, 4)));
    assert_eq!(shown.title, "Dragon");
    assert_eq!(shown.link_url, "https://hemolymph.net/card/d1");
    assert_eq!(
        shown.thumbnail_url,
        "https://file.garden/ZJSEzoaUL3bz8vYK/bloodlesscards/dragon.png"
    );
    assert_eq!(shown.footer_text, "Creature :: 3 Blood :: 2/1/4");
    assert_eq!(shown.description_text, "A fierce beast.");
}

#[test]
fn empty_list_is_answered_with_no_match() {
    let reply = reply_for(&SearchOutcome::Answered(SearchResult::CardList(Vec::new())));
    assert!(matches!(reply, Reply::Text(t) if t == "Couldn't find a matching card."));
}

#[test]
fn first_card_of_the_list_is_shown() {
    let mut second = card("Command", 1, (0, 0, 0));
    second.name = "Other".to_string();
    let outcome = SearchOutcome::Answered(SearchResult::CardList(vec![card("Creature", 3, (2, 1, 4)), second]));
    match reply_for(&outcome) {
        Reply::Card(shown) => {
            assert_eq!(shown.title, "Dragon");
            assert_eq!(shown.footer_text, "Creature :: 3 Blood :: 2/1/4");
        }
        Reply::Text(t) => panic!("a card was owed, not {t}"),
    }
}

#[test]
fn failures_are_answered_in_words() {
    let reply = reply_for(&SearchOutcome::Answered(SearchResult::SemanticError("unknown key".to_string())));
    assert!(matches!(reply, Reply::Text(t) if t == "Couldn't parse search: unknown key"));
    let reply = reply_for(&SearchOutcome::TransportFailure("timed out".to_string()));
    assert!(matches!(reply, Reply::Text(t) if t == "Couldn't reach server: timed out"));
}

#[test]
fn named_dragon_is_looked_up_and_shown() {
    let refs = cardbot::pipeline::on_message("Check out {{dragon}}", false);
    assert_eq!(refs.len(), 1);
    assert_eq!(refs[0].mode, cardbot::extract::Mode::ExactName);
    assert_eq!(refs[0].query, "dragon");
    let outcome = SearchOutcome::Answered(SearchResult::CardList(vec![card("Creature", 3, (2, 1, 4))]));
    match reply_for(&outcome) {
        Reply::Card(shown) => {
            assert_eq!(shown.footer_text, "Creature :: 3 Blood :: 2/1/4");
            assert_eq!(shown.description_text, "A fierce beast.");
            assert_eq!(shown.link_url, "https://hemolymph.net/card/d1");
        }
        Reply::Text(t) => panic!("a card was owed, not {t}"),
    }
}

#[test]
fn flask_search_without_matches_says_so() {
    let refs = cardbot::pipeline::on_message("{{!type:flask}}", false);
    assert_eq!(refs.len(), 1);
    assert_eq!(refs[0].mode, cardbot::extract::Mode::FreeSearch);
    assert_eq!(refs[0].query, "type:flask");
    let reply = reply_for(&SearchOutcome::Answered(SearchResult::CardList(Vec::new())));
    assert!(matches!(reply, Reply::Text(t) if t == "Couldn't find a matching card."));
}
