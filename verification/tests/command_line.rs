use backend_bro::helpers::command_line::{
    agent_label, clean_response, decide_confirmation, interpret_confirmation, PrintCommand,
    TextColor,
};

#[test]
fn confirmation_accepts_the_yes_words() {
    for answer in ["1", "ok", "y", " Y \n", "OK\n", "\tOk", "1\r\n"] {
        assert_eq!(interpret_confirmation(answer), Some(true), "{:?}", answer);
    }
}

#[test]
fn confirmation_accepts_the_no_words() {
    for answer in ["2", "no", "n", " N \n", "NO\n", "No", "2\r\n"] {
        assert_eq!(interpret_confirmation(answer), Some(false), "{:?}", answer);
    }
}

#[test]
fn confirmation_asks_again_for_anything_else() {
    for answer in ["", "\n", "yes", "nope", "3", "o k", "y n", "11"] {
        assert_eq!(interpret_confirmation(answer), None, "{:?}", answer);
    }
}

#[test]
fn response_is_cleaned_of_white_space() {
    assert_eq!(clean_response("  build a shop \n"), "build a shop");
    assert_eq!(clean_response("\n"), "");
    assert_eq!(clean_response("Keep  Inner  Space"), "Keep  Inner  Space");
}

#[test]
fn statement_colours() {
    assert_eq!(PrintCommand::AICall.statement_color(), TextColor::Cyan);
    assert_eq!(PrintCommand::UnitTest.statement_color(), TextColor::Magenta);
    assert_eq!(PrintCommand::Issue.statement_color(), TextColor::Red);
}

#[test]
fn agent_label_wording() {
    assert_eq!(agent_label("Managing Agent"), "Agent Managing Agent: ");
    assert_eq!(agent_label(""), "Agent : ");
}

#[test]
fn decision_on_a_cleaned_answer() {
    for answer in ["1", "ok", "y"] {
        assert_eq!(decide_confirmation(answer), Some(true), "{:?}", answer);
    }
    for answer in ["2", "no", "n"] {
        assert_eq!(decide_confirmation(answer), Some(false), "{:?}", answer);
    }
    for answer in ["", "Y", " y", "OK", "No", "yes", "12", "n\n"] {
        assert_eq!(decide_confirmation(answer), None, "{:?}", answer);
    }
}
