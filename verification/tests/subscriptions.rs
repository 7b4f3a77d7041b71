use zero2prod::domain::new_subscriber::NewSubscriber;
use zero2prod::routes::subscriptions::{
    insert_outcome_status, parse_subscriber, subscribe_step, subscriber_row, subscriber_row_with,
    welcome_message, FormData, HttpStatus, SubscribeStep, INSERT_SUBSCRIBER_QUERY,
};

fn form(name: &str, email: &str) -> FormData {
    FormData { email: email.to_string(), name: name.to_string() }
}

fn accepted(name: &str, email: &str) -> NewSubscriber {
    parse_subscriber(form(name, email)).ok().unwrap()
}

#[test]
fn a_valid_form_gives_a_subscriber() {
    let s = accepted("le guin", "ursula_le_guin@gmail.com");
    assert_eq!(s.name.as_str(), "le guin");
    assert_eq!(s.email.as_email_string(), "ursula_le_guin@gmail.com");
}

#[test]
fn the_name_is_checked_before_the_email() {
    let err = parse_subscriber(form("", "not-an-email")).err().unwrap();
    assert_eq!(err, " is not a valid subscriber name.");
    let err = parse_subscriber(form("ursula", "not-an-email")).err().unwrap();
    assert_eq!(err, "not-an-email is not a valid subscriber email.");
}

#[test]
fn try_from_agrees_with_parse_subscriber() {
    let r: Result<NewSubscriber, String> = form("ursula", "@domain.com").try_into();
    assert_eq!(r.err().unwrap(), "@domain.com is not a valid subscriber email.");
    let r: Result<NewSubscriber, String> = form("ursula", "u@domain.com").try_into();
    assert_eq!(r.ok().unwrap().name.as_str(), "ursula");
}

#[test]
fn an_invalid_form_is_answered_with_400() {
    for (name, email) in [("", "ursula@domain.com"), ("ursula", ""), ("a/b", "x@y.com")] {
        match subscribe_step(form(name, email)) {
            SubscribeStep::Respond(status) => {
                assert_eq!(status, HttpStatus::BadRequest);
                assert_eq!(status.code(), 400);
            }
            SubscribeStep::Insert(_) => panic!("invalid form accepted"),
        }
    }
}

#[test]
fn a_valid_form_is_stored() {
    match subscribe_step(form("ursula", "ursula@domain.com")) {
        SubscribeStep::Insert(s) => {
            assert_eq!(s.name.as_str(), "ursula");
            assert_eq!(s.email.as_email_string(), "ursula@domain.com");
        }
        SubscribeStep::Respond(_) => panic!("valid form refused"),
    }
}

#[test]
fn the_insert_outcome_decides_the_answer() {
    assert_eq!(insert_outcome_status(true), HttpStatus::Success);
    assert_eq!(insert_outcome_status(true).code(), 200);
    assert_eq!(insert_outcome_status(false), HttpStatus::InternalServerError);
    assert_eq!(insert_outcome_status(false).code(), 500);
}

#[test]
fn the_row_holds_the_subscriber_in_parameter_order() {
    let s = accepted("ursula", "ursula@domain.com");
    let row = subscriber_row_with("id-1".to_string(), "2024-01-01T00:00:00+00:00".to_string(), &s);
    assert_eq!(row.id, "id-1");
    assert_eq!(row.email, "ursula@domain.com");
    assert_eq!(row.name, "ursula");
    assert_eq!(row.subscribed_at, "2024-01-01T00:00:00+00:00");
}

#[test]
fn a_fresh_row_has_a_v4_uuid_and_a_utc_timestamp() {
    let s = accepted("ursula", "ursula@domain.com");
    let row = subscriber_row(&s);
    let id: Vec<char> = row.id.chars().collect();
    assert_eq!(id.len(), 36);
    for (i, c) in id.iter().enumerate() {
        if i == 8 || i == 13 || i == 18 || i == 23 {
            assert_eq!(*c, '-');
        } else {
            assert!(c.is_ascii_hexdigit() && !c.is_ascii_uppercase());
        }
    }
    assert_eq!(id[14], '4');
    assert!(['8', '9', 'a', 'b'].contains(&id[19]));
    assert!(row.subscribed_at.len() >= 25);
    assert!(row.subscribed_at.ends_with("+00:00"));
    assert_eq!(&row.subscribed_at[10..11], "T");
    let other = subscriber_row(&s);
    assert_ne!(row.id, other.id);
}

#[test]
fn the_welcome_message_names_the_subscriber() {
    assert_eq!(welcome_message("le guin"), "Welcome le guin!");
    assert_eq!(welcome_message(""), "Welcome !");
}

#[test]
fn the_query_takes_four_parameters() {
    assert!(INSERT_SUBSCRIBER_QUERY.contains("INSERT INTO LogEvents (message, level, exception, logevent)"));
    assert!(INSERT_SUBSCRIBER_QUERY.contains("VALUES (@P1, @P2, @P3, @P4)"));
}
