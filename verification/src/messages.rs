//! Reminder wording: the message shown by a notification and the labels of
//! its two actions, each picked at random from a fixed table.
//!
//! The tables and the selection are owned here; delivering the
//! notification is the caller's business.

use rand::RngExt;
use vstd::prelude::*;

verus! {

/// How many reminder messages the table holds.
pub const REMINDER_MESSAGE_COUNT: u64 = 18;

/// How many remind-me-in-five action variants the table holds.
pub const REMIND_VARIANT_COUNT: u64 = 24;

/// How many skip-this-break action variants the table holds.
pub const SKIP_VARIANT_COUNT: u64 = 23;

/// What a reminder notification carries: the chosen message and whether a
/// sound accompanies it.
#[derive(Clone, Debug)]
pub struct ReminderPayload {
    pub message: String,
    pub sound_enabled: bool,
}

/// The reminder message at a table index.
pub open spec fn spec_reminder_message(index: int) -> Seq<char> {
    if index == 0 {
        "Stand up before you photosynthesize."@
    } else if index == 1 {
        "Touch grass (nearby plant also counts)."@
    } else if index == 2 {
        "Keyboard's hot, legs are not."@
    } else if index == 3 {
        "Blink like you mean it: 10x."@
    } else if index == 4 {
        "Break speedrun in 30s. Go."@
    } else if index == 5 {
        "Free DLC: posture."@
    } else if index == 6 {
        "Up. Now. Your chair has attachment issues."@
    } else if index == 7 {
        "Stand before you grow roots."@
    } else if index == 8 {
        "Blink or become a raisin."@
    } else if index == 9 {
        "Walk away like the main character."@
    } else if index == 10 {
        "Your spine filed a ticket."@
    } else if index == 11 {
        "Walk. The chair will cope."@
    } else if index == 12 {
        "Your posture called HR."@
    } else if index == 13 {
        "Side quest: 30s breathing."@
    } else if index == 14 {
        "Keyboard is not a life partner."@
    } else if index == 15 {
        "AFK or AF-ache."@
    } else if index == 16 {
        "Stare at something >20ft, not your soul."@
    } else {
        "Load-bearing human requires maintenance."@
    }
}

/// The remind-me-in-five action variant at a table index: the button label
/// paired with the log line written when the button is used.
pub open spec fn spec_remind_variant(index: int) -> (Seq<char>, Seq<char>) {
    if index == 0 {
        ("Give me five"@, "Notification action: Give me five - stretch IOU noted."@)
    } else if index == 1 {
        ("Hit me in five"@, "Notification action: Hit me in five - calendar set to wiggle."@)
    } else if index == 2 {
        (
            "Let me finish this"@,
            "Notification action: Let me finish this - timer's waiting with sass."@,
        )
    } else if index == 3 {
        ("Nudge me in five"@, "Notification action: Nudge me in five - snooze engaged, zen pending."@)
    } else if index == 4 {
        ("Back in five"@, "Notification action: Back in five - chair misses you already."@)
    } else if index == 5 {
        ("Ping me in five"@, "Notification action: Ping me in five - reminder primed and ticking."@)
    } else if index == 6 {
        ("Five-minute breather"@, "Notification action: Five-minute breather - lungs scheduled."@)
    } else if index == 7 {
        ("BRB - 5"@, "Notification action: BRB - 5 - calendar winked, timer reset."@)
    } else if index == 8 {
        ("Snooze (5m)"@, "Notification action: Snooze (5m) - cushions fluffing virtually."@)
    } else if index == 9 {
        ("Circle back in 5"@, "Notification action: Circle back in 5 - orbit plotted."@)
    } else if index == 10 {
        ("Tap me in five"@, "Notification action: Tap me in five - coach has the whistle."@)
    } else if index == 11 {
        ("Five more, coach"@, "Notification action: Five more, coach - hustle annotated."@)
    } else if index == 12 {
        ("Hold my coffee (5m)"@, "Notification action: Hold my coffee - countdown steaming."@)
    } else if index == 13 {
        ("One more commit (5m)"@, "Notification action: One more commit - git blame accepted."@)
    } else if index == 14 {
        ("Let me wrap up (5m)"@, "Notification action: Wrap up (5m) - ribbon pending."@)
    } else if index == 15 {
        ("After this build (5m)"@, "Notification action: After this build - CI/CD bribed."@)
    } else if index == 16 {
        ("After this test (5m)"@, "Notification action: After this test - assertions appeased."@)
    } else if index == 17 {
        ("After this call (5m)"@, "Notification action: After this call - small talk queued."@)
    } else if index == 18 {
        ("Remind in five"@, "Notification action: Remind in five - patience, grasshopper."@)
    } else if index == 19 {
        ("Later - five"@, "Notification action: Later - five - calendar gave a nod."@)
    } else if index == 20 {
        ("Five ticks, please"@, "Notification action: Five ticks - metronome set."@)
    } else if index == 21 {
        ("Back shortly (5m)"@, "Notification action: Back shortly - away message drafted."@)
    } else if index == 22 {
        ("Give me 5 min"@, "Notification action: Give me 5 min - sand timer flipped."@)
    } else {
        ("Hit snooze (5m)"@, "Notification action: Hit snooze - alarm tucked in."@)
    }
}

/// The skip-this-break action variant at a table index: the button label
/// paired with the log line written when the button is used.
pub open spec fn spec_skip_variant(index: int) -> (Seq<char>, Seq<char>) {
    if index == 0 {
        ("Skip this lap"@, "Notification action: Skip this lap. Hustle responsibly."@)
    } else if index == 1 {
        ("Skip - boss cameo"@, "Notification action: Skip - noted, boss cameo logged."@)
    } else if index == 2 {
        ("Skip, still grinding"@, "Notification action: Skip - grind streak acknowledged."@)
    } else if index == 3 {
        ("Skip this one"@, "Notification action: Skip - this round benched."@)
    } else if index == 4 {
        ("Skip - on a roll"@, "Notification action: Skip - momentum protected."@)
    } else if index == 5 {
        ("Skip - deep focus"@, "Notification action: Skip - tunnel vision honored."@)
    } else if index == 6 {
        ("Skip - deadline sprint"@, "Notification action: Skip - sprint shoes laced."@)
    } else if index == 7 {
        ("Skip - meeting just started"@, "Notification action: Skip - calendar drama respected."@)
    } else if index == 8 {
        ("Skip - quick call"@, "Notification action: Skip - headset hair justified."@)
    } else if index == 9 {
        ("Skip - compiling"@, "Notification action: Skip - compiler chanting arcana."@)
    } else if index == 10 {
        ("Skip - shipping now"@, "Notification action: Skip - release train departing."@)
    } else if index == 11 {
        ("Skip - demo time"@, "Notification action: Skip - stage lights warmed."@)
    } else if index == 12 {
        ("Skip - eyes on logs"@, "Notification action: Skip - log rain interpreted."@)
    } else if index == 13 {
        ("Skip - pair session"@, "Notification action: Skip - duo mode enabled."@)
    } else if index == 14 {
        ("Skip - network flaky"@, "Notification action: Skip - packets doing parkour."@)
    } else if index == 15 {
        ("Skip - not now"@, "Notification action: Skip - vibes evaluated."@)
    } else if index == 16 {
        ("Skip - almost done"@, "Notification action: Skip - finish line in sight."@)
    } else if index == 17 {
        ("Skip - coffee run"@, "Notification action: Skip - caffeine diplomacy underway."@)
    } else if index == 18 {
        ("Skip - writing email"@, "Notification action: Skip - subject line negotiating."@)
    } else if index == 19 {
        ("Skip - keyboard on fire"@, "Notification action: Skip - typing WPM illegal."@)
    } else if index == 20 {
        ("Skip - late-night grind"@, "Notification action: Skip - owls co-signed."@)
    } else if index == 21 {
        ("Skip - screen share"@, "Notification action: Skip - pixels in public."@)
    } else {
        ("Skip - standup soon"@, "Notification action: Skip - jokes rehearsed."@)
    }
}

/// Relies on rand: `Rng::random_range` over `0..bound` returns a value of
/// that half-open range; the range is non-empty because `bound > 0`.
#[verifier::external_body]
fn random_index(bound: u64) -> (index: u64)
    requires
        bound > 0,
    ensures
        index < bound,
{
    rand::rng().random_range(0..bound)
}

/// The reminder message at a table index.
pub fn reminder_message(index: u64) -> (message: String)
    requires
        index < REMINDER_MESSAGE_COUNT,
    ensures
        message@ == spec_reminder_message(index as int),
{
    let text: &str = if index == 0 {
        "Stand up before you photosynthesize."
    } else if index == 1 {
        "Touch grass (nearby plant also counts)."
    } else if index == 2 {
        "Keyboard's hot, legs are not."
    } else if index == 3 {
        "Blink like you mean it: 10x."
    } else if index == 4 {
        "Break speedrun in 30s. Go."
    } else if index == 5 {
        "Free DLC: posture."
    } else if index == 6 {
        "Up. Now. Your chair has attachment issues."
    } else if index == 7 {
        "Stand before you grow roots."
    } else if index == 8 {
        "Blink or become a raisin."
    } else if index == 9 {
        "Walk away like the main character."
    } else if index == 10 {
        "Your spine filed a ticket."
    } else if index == 11 {
        "Walk. The chair will cope."
    } else if index == 12 {
        "Your posture called HR."
    } else if index == 13 {
        "Side quest: 30s breathing."
    } else if index == 14 {
        "Keyboard is not a life partner."
    } else if index == 15 {
        "AFK or AF-ache."
    } else if index == 16 {
        "Stare at something >20ft, not your soul."
    } else {
        "Load-bearing human requires maintenance."
    };
    text.to_owned()
}

/// The remind-me-in-five action variant at a table index.
pub fn remind_variant(index: u64) -> (variant: (String, String))
    requires
        index < REMIND_VARIANT_COUNT,
    ensures
        (variant.0@, variant.1@) == spec_remind_variant(index as int),
{
    let pair: (&str, &str) = if index == 0 {
        ("Give me five", "Notification action: Give me five - stretch IOU noted.")
    } else if index == 1 {
        ("Hit me in five", "Notification action: Hit me in five - calendar set to wiggle.")
    } else if index == 2 {
        ("Let me finish this", "Notification action: Let me finish this - timer's waiting with sass.")
    } else if index == 3 {
        ("Nudge me in five", "Notification action: Nudge me in five - snooze engaged, zen pending.")
    } else if index == 4 {
        ("Back in five", "Notification action: Back in five - chair misses you already.")
    } else if index == 5 {
        ("Ping me in five", "Notification action: Ping me in five - reminder primed and ticking.")
    } else if index == 6 {
        ("Five-minute breather", "Notification action: Five-minute breather - lungs scheduled.")
    } else if index == 7 {
        ("BRB - 5", "Notification action: BRB - 5 - calendar winked, timer reset.")
    } else if index == 8 {
        ("Snooze (5m)", "Notification action: Snooze (5m) - cushions fluffing virtually.")
    } else if index == 9 {
        ("Circle back in 5", "Notification action: Circle back in 5 - orbit plotted.")
    } else if index == 10 {
        ("Tap me in five", "Notification action: Tap me in five - coach has the whistle.")
    } else if index == 11 {
        ("Five more, coach", "Notification action: Five more, coach - hustle annotated.")
    } else if index == 12 {
        ("Hold my coffee (5m)", "Notification action: Hold my coffee - countdown steaming.")
    } else if index == 13 {
        ("One more commit (5m)", "Notification action: One more commit - git blame accepted.")
    } else if index == 14 {
        ("Let me wrap up (5m)", "Notification action: Wrap up (5m) - ribbon pending.")
    } else if index == 15 {
        ("After this build (5m)", "Notification action: After this build - CI/CD bribed.")
    } else if index == 16 {
        ("After this test (5m)", "Notification action: After this test - assertions appeased.")
    } else if index == 17 {
        ("After this call (5m)", "Notification action: After this call - small talk queued.")
    } else if index == 18 {
        ("Remind in five", "Notification action: Remind in five - patience, grasshopper.")
    } else if index == 19 {
        ("Later - five", "Notification action: Later - five - calendar gave a nod.")
    } else if index == 20 {
        ("Five ticks, please", "Notification action: Five ticks - metronome set.")
    } else if index == 21 {
        ("Back shortly (5m)", "Notification action: Back shortly - away message drafted.")
    } else if index == 22 {
        ("Give me 5 min", "Notification action: Give me 5 min - sand timer flipped.")
    } else {
        ("Hit snooze (5m)", "Notification action: Hit snooze - alarm tucked in.")
    };
    (pair.0.to_owned(), pair.1.to_owned())
}

/// The skip-this-break action variant at a table index.
pub fn skip_variant(index: u64) -> (variant: (String, String))
    requires
        index < SKIP_VARIANT_COUNT,
    ensures
        (variant.0@, variant.1@) == spec_skip_variant(index as int),
{
    let pair: (&str, &str) = if index == 0 {
        ("Skip this lap", "Notification action: Skip this lap. Hustle responsibly.")
    } else if index == 1 {
        ("Skip - boss cameo", "Notification action: Skip - noted, boss cameo logged.")
    } else if index == 2 {
        ("Skip, still grinding", "Notification action: Skip - grind streak acknowledged.")
    } else if index == 3 {
        ("Skip this one", "Notification action: Skip - this round benched.")
    } else if index == 4 {
        ("Skip - on a roll", "Notification action: Skip - momentum protected.")
    } else if index == 5 {
        ("Skip - deep focus", "Notification action: Skip - tunnel vision honored.")
    } else if index == 6 {
        ("Skip - deadline sprint", "Notification action: Skip - sprint shoes laced.")
    } else if index == 7 {
        ("Skip - meeting just started", "Notification action: Skip - calendar drama respected.")
    } else if index == 8 {
        ("Skip - quick call", "Notification action: Skip - headset hair justified.")
    } else if index == 9 {
        ("Skip - compiling", "Notification action: Skip - compiler chanting arcana.")
    } else if index == 10 {
        ("Skip - shipping now", "Notification action: Skip - release train departing.")
    } else if index == 11 {
        ("Skip - demo time", "Notification action: Skip - stage lights warmed.")
    } else if index == 12 {
        ("Skip - eyes on logs", "Notification action: Skip - log rain interpreted.")
    } else if index == 13 {
        ("Skip - pair session", "Notification action: Skip - duo mode enabled.")
    } else if index == 14 {
        ("Skip - network flaky", "Notification action: Skip - packets doing parkour.")
    } else if index == 15 {
        ("Skip - not now", "Notification action: Skip - vibes evaluated.")
    } else if index == 16 {
        ("Skip - almost done", "Notification action: Skip - finish line in sight.")
    } else if index == 17 {
        ("Skip - coffee run", "Notification action: Skip - caffeine diplomacy underway.")
    } else if index == 18 {
        ("Skip - writing email", "Notification action: Skip - subject line negotiating.")
    } else if index == 19 {
        ("Skip - keyboard on fire", "Notification action: Skip - typing WPM illegal.")
    } else if index == 20 {
        ("Skip - late-night grind", "Notification action: Skip - owls co-signed.")
    } else if index == 21 {
        ("Skip - screen share", "Notification action: Skip - pixels in public.")
    } else {
        ("Skip - standup soon", "Notification action: Skip - jokes rehearsed.")
    };
    (pair.0.to_owned(), pair.1.to_owned())
}

/// Picks a reminder message at random from the table.
pub fn choose_reminder_message() -> (message: String)
    ensures
        exists|index: int|
            0 <= index < REMINDER_MESSAGE_COUNT && message@ == #[trigger] spec_reminder_message(
                index,
            ),
{
    let index = random_index(REMINDER_MESSAGE_COUNT);
    let message = reminder_message(index);
    proof {
        assert(message@ == spec_reminder_message(index as int));
    }
    message
}

/// Picks a remind-me-in-five action variant at random from the table.
pub fn choose_remind_variant() -> (variant: (String, String))
    ensures
        exists|index: int|
            0 <= index < REMIND_VARIANT_COUNT && (variant.0@, variant.1@)
                == #[trigger] spec_remind_variant(index),
{
    let index = random_index(REMIND_VARIANT_COUNT);
    let variant = remind_variant(index);
    proof {
        assert((variant.0@, variant.1@) == spec_remind_variant(index as int));
    }
    variant
}

/// Picks a skip-this-break action variant at random from the table.
pub fn choose_skip_variant() -> (variant: (String, String))
    ensures
        exists|index: int|
            0 <= index < SKIP_VARIANT_COUNT && (variant.0@, variant.1@)
                == #[trigger] spec_skip_variant(index),
{
    let index = random_index(SKIP_VARIANT_COUNT);
    let variant = skip_variant(index);
    proof {
        assert((variant.0@, variant.1@) == spec_skip_variant(index as int));
    }
    variant
}

} // verus!
