//! The texts the bot shows and the prompts it sends to the AI, each built
//! from fixed pieces and decimal numbers and proved equal to its spec form.

use vstd::prelude::*;
use vstd::string::*;

verus! {

/// The character of a decimal digit.
pub open spec fn digit_char(d: nat) -> char {
    if d == 0 { '0' }
    else if d == 1 { '1' }
    else if d == 2 { '2' }
    else if d == 3 { '3' }
    else if d == 4 { '4' }
    else if d == 5 { '5' }
    else if d == 6 { '6' }
    else if d == 7 { '7' }
    else if d == 8 { '8' }
    else { '9' }
}

/// The decimal notation of `n`, without leading zeros ("0" for zero).
pub open spec fn decimal(n: nat) -> Seq<char>
    decreases n,
{
    if n < 10 {
        seq![digit_char(n)]
    } else {
        decimal(n / 10).push(digit_char(n % 10))
    }
}

/// The digit `d` as a one-character string.
fn digit_str(d: u64) -> (r: &'static str)
    requires
        d < 10,
    ensures
        r@ == seq![digit_char(d as nat)],
{
    proof {
        reveal_strlit("0");
        reveal_strlit("1");
        reveal_strlit("2");
        reveal_strlit("3");
        reveal_strlit("4");
        reveal_strlit("5");
        reveal_strlit("6");
        reveal_strlit("7");
        reveal_strlit("8");
        reveal_strlit("9");
    }
    if d == 0 { "0" }
    else if d == 1 { "1" }
    else if d == 2 { "2" }
    else if d == 3 { "3" }
    else if d == 4 { "4" }
    else if d == 5 { "5" }
    else if d == 6 { "6" }
    else if d == 7 { "7" }
    else if d == 8 { "8" }
    else { "9" }
}

/// Appends the decimal notation of `n` to `s`.
pub fn push_decimal(s: &mut String, n: u64)
    ensures
        final(s)@ == old(s)@ + decimal(n as nat),
    decreases n,
{
    if n >= 10 {
        push_decimal(s, n / 10);
    }
    s.append(digit_str(n % 10));
}

/// Reply to a session request while the user already has one running.
pub const ALREADY_ACTIVE_TEXT: &'static str = "You already have an active session.";

/// Reply to a session request for zero minutes.
pub const ZERO_DURATION_TEXT: &'static str = "A session has to last at least one minute.";

/// Reply to a session request whose length in seconds does not fit in 64 bits.
pub const TOO_LONG_TEXT: &'static str = "That session would be too long to keep time of.";

/// Shown in place of the progress line once a session has run out.
pub const COMPLETED_MARKER: &'static str = "~Session Completed~";

// The fixed pieces of the texts below; the spec functions say how they join.

pub const SUMMARIZE_HEAD: &'static str = "Please summarize the following text in as much detail as possible. \n\nText: \n";

pub const START_HEAD: &'static str = "Starting your ";

pub const START_TAIL: &'static str = " minute pomodoro session...\n";

pub const PROGRESS_HEAD: &'static str = "Your ";

pub const PROGRESS_MIDDLE: &'static str = " minute session has been running for: \n\n ";

pub const PROGRESS_MINUTES: &'static str = "m : ";

pub const PROGRESS_SECONDS: &'static str = "s";

pub const CLOSING_HEAD: &'static str = "I have just completed a pomodoro session that lasted for ";

pub const CLOSING_TAIL: &'static str = " minutes. Please inform me in a creative way that my session has ended and that I can take a break now. You may use emojis in your response and include a link to a funny or cute animal video / gif / image or whatever you like.\n";

pub const GOALS_SEPARATOR: &'static str = "\n\n";

pub const GOALS_HEAD: &'static str = "I had the following goals for this session: '";

pub const GOALS_TAIL: &'static str = "'. Please ask me whether I achieved them or not and if not, whether I would like some assistance to achieve them in the next session.\n";

/// The request sent to the AI to summarize `message`.
pub open spec fn summarize_prompt_text(message: Seq<char>) -> Seq<char> {
    SUMMARIZE_HEAD@ + message
}

/// The first reply to a session of `minutes` minutes that has just started.
pub open spec fn start_text(minutes: nat) -> Seq<char> {
    START_HEAD@ + decimal(minutes) + START_TAIL@
}

/// The progress line of a session of `minutes` minutes that has run for
/// `elapsed` seconds, shown as whole minutes and the seconds left over.
pub open spec fn progress_text(minutes: nat, elapsed: nat) -> Seq<char> {
    PROGRESS_HEAD@ + decimal(minutes) + PROGRESS_MIDDLE@ + decimal(elapsed / 60) + PROGRESS_MINUTES@
        + decimal(elapsed % 60) + PROGRESS_SECONDS@
}

/// The text of optional goals.
pub open spec fn goals_view(goals: Option<String>) -> Option<Seq<char>> {
    match goals {
        Some(g) => Some(g@),
        None => None,
    }
}

/// The request sent to the AI when a session of `minutes` minutes is over;
/// with goals, it also asks whether they were met and whether help is wanted.
pub open spec fn closing_prompt_text(minutes: nat, goals: Option<Seq<char>>) -> Seq<char> {
    let head = CLOSING_HEAD@ + decimal(minutes) + CLOSING_TAIL@;
    match goals {
        Some(g) => head + GOALS_SEPARATOR@ + GOALS_HEAD@ + g + GOALS_TAIL@,
        None => head,
    }
}

/// The request that asks the AI to summarize `message`.
pub fn summarize_prompt(message: &str) -> (r: String)
    ensures
        r@ == summarize_prompt_text(message@),
{
    let mut r = String::from_str(SUMMARIZE_HEAD);
    r.append(message);
    r
}

/// The reply that announces a session of `minutes` minutes.
pub fn start_reply(minutes: u64) -> (r: String)
    ensures
        r@ == start_text(minutes as nat),
{
    let mut r = String::from_str(START_HEAD);
    push_decimal(&mut r, minutes);
    r.append(START_TAIL);
    r
}

/// The progress line of a session of `minutes` minutes after `elapsed` seconds.
pub fn progress_line(minutes: u64, elapsed: u64) -> (r: String)
    ensures
        r@ == progress_text(minutes as nat, elapsed as nat),
{
    let mut r = String::from_str(PROGRESS_HEAD);
    push_decimal(&mut r, minutes);
    r.append(PROGRESS_MIDDLE);
    push_decimal(&mut r, elapsed / 60);
    r.append(PROGRESS_MINUTES);
    push_decimal(&mut r, elapsed % 60);
    r.append(PROGRESS_SECONDS);
    r
}

/// The request sent to the AI once a session of `minutes` minutes is over.
pub fn closing_prompt(minutes: u64, goals: &Option<String>) -> (r: String)
    ensures
        r@ == closing_prompt_text(minutes as nat, goals_view(*goals)),
{
    let mut r = String::from_str(CLOSING_HEAD);
    push_decimal(&mut r, minutes);
    r.append(CLOSING_TAIL);
    match goals {
        Some(g) => {
            r.append(GOALS_SEPARATOR);
            r.append(GOALS_HEAD);
            r.append(g.as_str());
            r.append(GOALS_TAIL);
        },
        None => {},
    }
    r
}

} // verus!
