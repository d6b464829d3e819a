use launcher::clock::ZoneTable;
use launcher::command::{parse, route, Handler};
use launcher::dictionary::Definition;
use launcher::failure::Failure;
use launcher::rate::conversion;
use launcher::serve::{respond, Reply, Step};

fn strings(items: &[&str]) -> Vec<String> {
    items.iter().map(|s| s.to_string()).collect()
}

fn delivered(step: Result<Step, Failure>) -> (String, bool, bool) {
    match step {
        Ok(Step::Deliver(d)) => (d.text, d.print, d.prompt),
        other => panic!("nothing delivered: {:?}", other),
    }
}

#[test]
fn conversion_takes_amount_source_and_target_from_the_command() {
    let codes = strings(&["EUR", "USD", "JPY"]);
    let found = conversion(&codes, &parse("rate 12.5 jpy usd")).unwrap();
    assert_eq!(found.amount, "12.5");
    assert_eq!(found.source, 2);
    assert_eq!(found.target, 1);
}

#[test]
fn conversion_fails_where_a_currency_is_unknown() {
    let codes = strings(&["EUR", "USD"]);
    assert!(matches!(conversion(&codes, &parse("rate 1 XYZ USD")), Err(Failure::UnknownCurrency)));
    assert!(matches!(conversion(&codes, &parse("rate 1 USD XYZ")), Err(Failure::UnknownCurrency)));
    assert!(matches!(conversion(&codes, &parse("rate 1 USD")), Err(Failure::UnknownCurrency)));
    assert!(matches!(conversion(&codes, &parse("rate")), Err(Failure::UnknownCurrency)));
}

#[test]
fn conversion_does_not_look_at_the_amount() {
    let codes = strings(&["EUR", "USD"]);
    let found = conversion(&codes, &parse("rate much eur eur")).unwrap();
    assert_eq!(found.amount, "much");
    assert_eq!((found.source, found.target), (0, 0));
}

#[test]
fn program_output_is_handed_back_as_it_is() {
    let table = ZoneTable::standard();
    let cmd = parse("ls -l");
    let step = respond(route(&cmd.name), &cmd, &table, Reply::Output("a-b\n".to_string()));
    assert_eq!(delivered(step), ("a-b\n".to_string(), false, false));
    let cmd = parse("> rust");
    let step = respond(route(&cmd.name), &cmd, &table, Reply::Output(String::new()));
    assert_eq!(delivered(step), (String::new(), false, false));
}

#[test]
fn weather_report_is_broken_into_lines_printed_and_shown() {
    let cmd = parse("wea Oslo");
    let step = respond(
        route(&cmd.name),
        &cmd,
        &ZoneTable::standard(),
        Reply::Output("Mon 3 - Tue 4".to_string()),
    );
    assert_eq!(delivered(step), ("Mon 3 \n Tue 4".to_string(), true, true));
}

#[test]
fn spoken_text_is_broken_into_lines_and_printed() {
    let cmd = parse("say hello");
    let table = ZoneTable::standard();
    let step = respond(route(&cmd.name), &cmd, &table, Reply::Output("ni-hao".to_string()));
    assert_eq!(delivered(step), ("ni\nhao".to_string(), true, false));
}

#[test]
fn first_definition_is_shown_without_its_markers() {
    let cmd = parse("def calm");
    let entries = vec![
        Definition {
            dict: "A".to_string(),
            word: "calm".to_string(),
            definition: "adj 1 still 2 quiet".to_string(),
        },
        Definition {
            dict: "B".to_string(),
            word: "calm".to_string(),
            definition: "n 1 stillness".to_string(),
        },
    ];
    let step = respond(route(&cmd.name), &cmd, &ZoneTable::standard(), Reply::Entries(entries));
    assert_eq!(delivered(step), ("adj\nstill\nquiet".to_string(), false, true));
}

#[test]
fn empty_lookup_is_shown_as_the_fallback_text() {
    let cmd = parse("def zzz");
    let step = respond(route(&cmd.name), &cmd, &ZoneTable::standard(), Reply::Entries(Vec::new()));
    assert_eq!(delivered(step), ("No result :(".to_string(), false, true));
}

#[test]
fn rates_are_looked_up_and_then_the_amount_is_worded() {
    let table = ZoneTable::standard();
    let cmd = parse("rate 10 USD EUR");
    let handler = route(&cmd.name);
    let codes = strings(&["USD", "EUR"]);
    let rates: Vec<f32> = vec![1.0, 0.9];
    let found = match respond(handler, &cmd, &table, Reply::Codes(codes)) {
        Ok(Step::Convert(found)) => found,
        other => panic!("nothing to convert: {:?}", other),
    };
    assert_eq!((found.amount.as_str(), found.source, found.target), ("10", 0, 1));
    let amount = found.amount.parse::<f32>().unwrap() * (rates[found.target] / rates[found.source]);
    let step = respond(handler, &cmd, &table, Reply::Amount(amount.to_string()));
    assert_eq!(delivered(step), ("10 USD = 9 EUR".to_string(), false, true));
}

#[test]
fn unknown_currency_stops_the_rate_handler() {
    let cmd = parse("rate 10 USD XYZ");
    let step = respond(
        route(&cmd.name),
        &cmd,
        &ZoneTable::standard(),
        Reply::Codes(strings(&["USD", "EUR"])),
    );
    assert!(matches!(step, Err(Failure::UnknownCurrency)));
}

#[test]
fn value_of_the_expression_is_shown_as_it_is() {
    let cmd = parse("calc 2+2");
    let table = ZoneTable::standard();
    let step = respond(route(&cmd.name), &cmd, &table, Reply::Value("4".to_string()));
    assert_eq!(delivered(step), ("4".to_string(), false, true));
}

#[test]
fn world_clock_ignores_the_parameters() {
    let table = ZoneTable::standard();
    let plain = delivered(respond(Handler::WorldClock, &parse("time"), &table, Reply::Moment(0)));
    let typed = parse("time a b c");
    let extra = delivered(respond(Handler::WorldClock, &typed, &table, Reply::Moment(0)));
    assert_eq!(plain, extra);
    assert_eq!(plain.0.lines().count(), 8);
    assert!(plain.0.starts_with("Otago      | Jan 01 (Thu) 12:00 PM +1200\nTokyo "));
    assert_eq!((plain.1, plain.2), (false, true));
}

#[test]
fn world_clock_fails_where_there_is_no_stamp() {
    let table = ZoneTable::standard();
    let step = respond(Handler::WorldClock, &parse("time"), &table, Reply::Moment(i64::MAX));
    assert!(matches!(step, Err(Failure::NoTimeStamp)));
}

#[test]
fn an_answer_that_was_not_asked_for_is_refused() {
    let table = ZoneTable::standard();
    let cmd = parse("x y z");
    let cases = vec![
        (Handler::Dictionary, Reply::Output(String::new())),
        (Handler::Dictionary, Reply::Moment(0)),
        (Handler::Rate, Reply::Output(String::new())),
        (Handler::Rate, Reply::Value(String::new())),
        (Handler::Calculator, Reply::Amount(String::new())),
        (Handler::Calculator, Reply::Output(String::new())),
        (Handler::WorldClock, Reply::Output(String::new())),
        (Handler::Speech, Reply::Value(String::new())),
        (Handler::Weather, Reply::Entries(Vec::new())),
        (Handler::Search, Reply::Codes(Vec::new())),
        (Handler::Run, Reply::Moment(0)),
    ];
    for (handler, reply) in cases {
        assert!(matches!(respond(handler, &cmd, &table, reply), Err(Failure::UnexpectedReply)));
    }
}
