use pomobot::text::{closing_prompt, progress_line, push_decimal, start_reply, summarize_prompt};

fn decimal(n: u64) -> String {
    let mut s = String::from("n=");
    push_decimal(&mut s, n);
    s
}

#[test]
fn decimal_notation() {
    assert_eq!(decimal(0), "n=0");
    assert_eq!(decimal(7), "n=7");
    assert_eq!(decimal(10), "n=10");
    assert_eq!(decimal(1234567890), "n=1234567890");
    assert_eq!(decimal(u64::MAX), "n=18446744073709551615");
}

#[test]
fn summarize_prompt_wraps_the_text() {
    assert_eq!(
        summarize_prompt("abc"),
        "Please summarize the following text in as much detail as possible. \n\nText: \nabc"
    );
    assert_eq!(
        summarize_prompt(""),
        "Please summarize the following text in as much detail as possible. \n\nText: \n"
    );
}

#[test]
fn start_reply_names_the_minutes() {
    assert_eq!(start_reply(60), "Starting your 60 minute pomodoro session...\n");
}

#[test]
fn progress_line_splits_minutes_and_seconds() {
    assert_eq!(
        progress_line(25, 125),
        "Your 25 minute session has been running for: \n\n 2m : 5s"
    );
    assert_eq!(
        progress_line(1, 0),
        "Your 1 minute session has been running for: \n\n 0m : 0s"
    );
}

const CLOSING: &str = "I have just completed a pomodoro session that lasted for 25 minutes. Please inform me in a creative way that my session has ended and that I can take a break now. You may use emojis in your response and include a link to a funny or cute animal video / gif / image or whatever you like.\n";

#[test]
fn closing_prompt_without_goals() {
    assert_eq!(closing_prompt(25, &None), CLOSING);
}

#[test]
fn closing_prompt_with_goals() {
    let want = format!(
        "{CLOSING}\n\nI had the following goals for this session: 'write report'. Please ask me whether I achieved them or not and if not, whether I would like some assistance to achieve them in the next session.\n"
    );
    assert_eq!(closing_prompt(25, &Some("write report".to_string())), want);
}
