use vstd::prelude::*;

verus! {

use vstd::string::StringExecFns;
use crate::rng::random_u64_below;
use crate::timer::{Timer, TimerMode, MAX_TIMER_MS};

/// What relieved traders shout.
pub const BULLISH: [&'static str; 11] = [
    "PHEW",
    "YAY",
    "STONKS UP",
    "FART OF\nTHE DEAL",
    "TACOed",
    "LIBERATED",
    "PAUSED LOL",
    "CHICKEN",
    "BOK BOK",
    "CRINGE",
    "LIBS GOT\nOWNED",
];

/// What scared traders shout.
pub const BEARISH: [&'static str; 11] = [
    "O NO",
    "LAME",
    "MEIN GOTT",
    "O NEIN",
    "MA CHE SCEMO",
    "CE TAMPIT",
    "STONKS DOWN",
    "WTF",
    "MARKET CRASH\nLOL",
    "RECIPROCATED",
    "MY 401K",
];

/// The sizes a tariff announcement boasts.
pub const TARIFF_VALUES: [&'static str; 10] = [
    "20",
    "42",
    "69",
    "100",
    "200",
    "420",
    "9001",
    "GAJILLION",
    "BAZMILLION",
    "INFINITY",
];

/// What a tariff announcement targets.
pub const TARIFF_TARGETS: [&'static str; 12] = [
    "STEEL",
    "ELECTRONICS",
    "NAZI CARS",
    "THIS GAME",
    "ORANGE TAN",
    "PENGUINS",
    "CHINA",
    "EUROPE",
    "ATLANTIS",
    "BEVY",
    "AI SLOP",
    "ITCH.IO",
];

/// The end-of-round commentary.
pub const ENDING_SARCASM: [&'static str; 9] = [
    "Don't you just love the free market?",
    "So are your friends who knew about it in advance.",
    "And 10x morally poorer.",
    "I love the smell of insider trading in the morning.",
    "I swear it will trickle down to everyone.",
    "Private sector efficiency at its finest.",
    "Trade pertners respect us so much.",
    "much deal very respect so amaze",
    "Hope this doesn't break any bromance.",
];

/// A uniformly random line out of a nonempty table.
pub fn random_string(a: &[&'static str]) -> (r: &'static str)
    requires
        a@.len() > 0,
    ensures
        exists|i: int| 0 <= i < a@.len() && r == a@[i],
{
    let idx = random_u64_below(a.len() as u64) as usize;
    let r = a[idx];
    proof {
        assert(r == a@[idx as int]);
    }
    r
}

/// A freshly made-up tariff announcement: a random size against a random
/// target, in the fixed announcement shape.
pub fn random_tariff() -> (r: String)
    ensures
        exists|i: int, j: int|
            0 <= i < TARIFF_VALUES@.len() && 0 <= j < TARIFF_TARGETS@.len() && r@
                == TARIFF_VALUES@[i]@ + "% TARIFFS\nON "@ + TARIFF_TARGETS@[j]@,
{
    let value = random_string(&TARIFF_VALUES);
    let target = random_string(&TARIFF_TARGETS);
    let mut s = String::from_str(value);
    s.append("% TARIFFS\nON ");
    s.append(target);
    proof {
        let i = choose|i: int| 0 <= i < TARIFF_VALUES@.len() && value == TARIFF_VALUES@[i];
        let j = choose|j: int| 0 <= j < TARIFF_TARGETS@.len() && target == TARIFF_TARGETS@[j];
        assert(0 <= i < TARIFF_VALUES@.len() && 0 <= j < TARIFF_TARGETS@.len() && s@
            == TARIFF_VALUES@[i]@ + "% TARIFFS\nON "@ + TARIFF_TARGETS@[j]@);
    }
    s
}

/// Ask for a line of text to appear over an entity's head for a while.
#[derive(Debug)]
pub struct OverheadTextRequest {
    pub attached_to: u64,
    pub text: Option<String>,
    pub duration_ms: Option<u64>,
}

/// The floating label over an entity's head; it hides itself when its
/// display timer runs out.
#[derive(Clone, Copy, PartialEq, Eq, Structural, Debug)]
pub struct OverheadText {
    pub display_timer: Timer,
}

impl Default for OverheadText {
    fn default() -> (r: OverheadText)
        ensures
            r == (OverheadText {
                display_timer: Timer { duration_ms: 100, elapsed_ms: 0, mode: TimerMode::Once },
            }),
    {
        OverheadText {
            display_timer: Timer { duration_ms: 100, elapsed_ms: 0, mode: TimerMode::Once },
        }
    }
}

/// One overhead label, as the text rules see it: whose head it floats over,
/// its timer, its line and whether it shows.
#[derive(Debug)]
pub struct OverheadTextEntity {
    pub parent: u64,
    pub overhead: OverheadText,
    pub text: String,
    pub visible: bool,
}

/// The display duration a request asks for, with the default used when it
/// leaves the choice open.
pub open spec fn spec_req_duration(req: OverheadTextRequest) -> u64 {
    match req.duration_ms {
        Some(d) => d,
        None => 1000,
    }
}

/// One label after one request: a request aimed at its parent shows it,
/// rewinds its timer to the requested duration and replaces its line when
/// the request carries one; any other request leaves it alone.
pub open spec fn spec_req_entity(e: OverheadTextEntity, req: OverheadTextRequest)
    -> OverheadTextEntity {
    if e.parent == req.attached_to {
        OverheadTextEntity {
            overhead: OverheadText {
                display_timer: Timer {
                    duration_ms: spec_req_duration(req),
                    elapsed_ms: 0,
                    mode: TimerMode::Once,
                },
            },
            visible: true,
            text: match req.text {
                Some(t) => t,
                None => e.text,
            },
            ..e
        }
    } else {
        e
    }
}

/// All labels after all requests, applied in order.
pub open spec fn spec_apply_requests(
    texts: Seq<OverheadTextEntity>,
    reqs: Seq<OverheadTextRequest>,
) -> Seq<OverheadTextEntity>
    decreases reqs.len(),
{
    if reqs.len() == 0 {
        texts
    } else {
        spec_apply_requests(texts, reqs.drop_last()).map_values(
            |e: OverheadTextEntity| spec_req_entity(e, reqs.last()),
        )
    }
}

/// Deliver this tick's overhead-text requests to the labels they address.
pub fn process_text_requests(
    requests: &Vec<OverheadTextRequest>,
    texts: &mut Vec<OverheadTextEntity>,
)
    ensures
        final(texts)@ == spec_apply_requests(old(texts)@, requests@),
{
    let ghost reqs = requests@;
    let ghost orig = texts@;
    let mut r: usize = 0;
    while r < requests.len()
        invariant
            r <= reqs.len(),
            requests@ == reqs,
            texts@ == spec_apply_requests(orig, reqs.take(r as int)),
        decreases reqs.len() - r,
    {
        let ghost before = texts@;
        let req = &requests[r];
        let mut i: usize = 0;
        while i < texts.len()
            invariant
                i <= texts@.len(),
                texts@.len() == before.len(),
                r < reqs.len(),
                requests@ == reqs,
                req == &reqs[r as int],
                forall|k: int|
                    0 <= k < i ==> texts@[k] == spec_req_entity(#[trigger] before[k], reqs[r as int]),
                forall|k: int| i <= k < before.len() ==> texts@[k] == #[trigger] before[k],
            decreases texts@.len() - i,
        {
            if texts[i].parent == req.attached_to {
                let duration = match req.duration_ms {
                    Some(d) => d,
                    None => 1000,
                };
                let new_text: String = match &req.text {
                    Some(t) => t.clone(),
                    None => texts[i].text.clone(),
                };
                let e = OverheadTextEntity {
                    parent: texts[i].parent,
                    overhead: OverheadText {
                        display_timer: Timer {
                            duration_ms: duration,
                            elapsed_ms: 0,
                            mode: TimerMode::Once,
                        },
                    },
                    text: new_text,
                    visible: true,
                };
                proof {
                    assert(e == spec_req_entity(before[i as int], reqs[r as int]));
                }
                texts.set(i, e);
            }
            i = i + 1;
        }
        proof {
            assert(reqs.take(r + 1).drop_last() =~= reqs.take(r as int));
            assert(reqs.take(r + 1).last() == reqs[r as int]);
            assert(texts@ =~= spec_apply_requests(orig, reqs.take(r as int)).map_values(
                |e: OverheadTextEntity| spec_req_entity(e, reqs[r as int]),
            ));
        }
        r = r + 1;
    }
    proof {
        assert(reqs.take(reqs.len() as int) =~= reqs);
    }
}

pub open spec fn overhead_wf(e: OverheadTextEntity) -> bool {
    e.overhead.display_timer.wf() && e.overhead.display_timer.duration_ms <= MAX_TIMER_MS
}

/// One label after one tick: its timer advances, and the moment the timer
/// runs out the label hides.
pub open spec fn spec_update_text(e: OverheadTextEntity, delta: int) -> OverheadTextEntity {
    OverheadTextEntity {
        overhead: OverheadText { display_timer: e.overhead.display_timer.spec_tick(delta) },
        visible: if e.overhead.display_timer.spec_just_finished(delta) {
            false
        } else {
            e.visible
        },
        ..e
    }
}

/// Tick every overhead label's display timer, hiding those that ran out.
pub fn update_texts(texts: &mut Vec<OverheadTextEntity>, delta_ms: u64)
    requires
        delta_ms <= MAX_TIMER_MS,
        forall|i: int| 0 <= i < old(texts)@.len() ==> overhead_wf(#[trigger] old(texts)@[i]),
    ensures
        final(texts)@.len() == old(texts)@.len(),
        forall|i: int|
            0 <= i < old(texts)@.len() ==> final(texts)@[i] == spec_update_text(
                #[trigger] old(texts)@[i],
                delta_ms as int,
            ),
        forall|i: int| 0 <= i < final(texts)@.len() ==> overhead_wf(#[trigger] final(texts)@[i]),
{
    let ghost orig = texts@;
    let mut i: usize = 0;
    while i < texts.len()
        invariant
            delta_ms <= MAX_TIMER_MS,
            i <= orig.len(),
            texts@.len() == orig.len(),
            forall|k: int| 0 <= k < orig.len() ==> overhead_wf(#[trigger] orig[k]),
            forall|k: int|
                0 <= k < i ==> texts@[k] == spec_update_text(#[trigger] orig[k], delta_ms as int),
            forall|k: int| 0 <= k < i ==> overhead_wf(#[trigger] texts@[k]),
            forall|k: int| i <= k < orig.len() ==> texts@[k] == #[trigger] orig[k],
        decreases orig.len() - i,
    {
        let mut timer = texts[i].overhead.display_timer;
        let fin = timer.tick(delta_ms);
        let e = OverheadTextEntity {
            parent: texts[i].parent,
            overhead: OverheadText { display_timer: timer },
            text: texts[i].text.clone(),
            visible: if fin {
                false
            } else {
                texts[i].visible
            },
        };
        proof {
            assert(e == spec_update_text(orig[i as int], delta_ms as int));
        }
        texts.set(i, e);
        i = i + 1;
    }
}

} // verus!
