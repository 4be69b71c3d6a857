//! The hello dialogue: the bot asks for a name and an age, then greets the
//! user, counting how often each name has been greeted.

use vstd::prelude::*;
use dashmap::DashMap;
use crate::dialogue::{Action, ActionView, actions_view};
use crate::message::{Message, SegmentView, raw_text, text_only};
use crate::text::{
    canonical_decimal, decimal, lemma_decimal_is_canonical, parse_u8, parse_u8_spec, starts_with,
    u64_to_decimal,
};

verus! {

/// The concurrent map type of the `dashmap` crate.
#[verifier::external_type_specification]
#[verifier::external_body]
#[verifier::reject_recursive_types(K)]
#[verifier::reject_recursive_types(V)]
#[verifier::reject_recursive_types(S)]
pub struct ExDashMap<K, V, S>(DashMap<K, V, S>);

/// The entries of a map from names to greeting counts, each name by its
/// characters.
pub uninterp spec fn greeting_counts(map: DashMap<String, u64>) -> Map<Seq<char>, u64>;

/// A new, empty map.
///
/// Trusted: calls `DashMap::new`, which creates a map with no entries.
#[verifier::external_body]
fn counts_new() -> (res: DashMap<String, u64>)
    ensures
        greeting_counts(res).dom() == Set::<Seq<char>>::empty(),
{
    DashMap::new()
}

/// The value that `map` holds for `name`, if any.
///
/// Trusted: calls `DashMap::get`, which finds the entry whose key equals
/// `name` (keys compare as strings) and reads its value.
#[verifier::external_body]
fn counts_get(map: &DashMap<String, u64>, name: &str) -> (res: Option<u64>)
    ensures
        res == (if greeting_counts(*map).contains_key(name@) {
            Some(greeting_counts(*map)[name@])
        } else {
            None::<u64>
        }),
{
    map.get(name).map(|entry| *entry)
}

/// Sets the value of `name` in `map` to `count`, and returns the value it
/// had before, if any.
///
/// Trusted: calls `DashMap::insert`, which replaces the value of an entry
/// with an equal key or adds a new entry, and returns the replaced value.
#[verifier::external_body]
fn counts_insert(map: &mut DashMap<String, u64>, name: String, count: u64) -> (res: Option<u64>)
    ensures
        greeting_counts(*final(map)) == greeting_counts(*old(map)).insert(name@, count),
        res == (if greeting_counts(*old(map)).contains_key(name@) {
            Some(greeting_counts(*old(map))[name@])
        } else {
            None::<u64>
        }),
{
    map.insert(name, count)
}

/// How often `name` has been greeted, according to `counts`.
pub open spec fn count_in(counts: Map<Seq<char>, u64>, name: Seq<char>) -> u64 {
    if counts.contains_key(name) {
        counts[name]
    } else {
        0
    }
}

/// A name that has never been greeted has count 0, and its first greeting
/// makes it 1; in particular, every name has count 0 in an empty map.
pub proof fn law_unseen_name_counts_zero(counts: Map<Seq<char>, u64>, name: Seq<char>)
    requires
        !counts.contains_key(name),
    ensures
        count_in(counts, name) == 0,
        count_in(greeted(counts, name), name) == 1,
        greeted(counts, name).contains_key(name),
{
}

/// A greeted name's count is the value stored for it.
pub proof fn law_seen_name_counts_stored(counts: Map<Seq<char>, u64>, name: Seq<char>)
    requires
        counts.contains_key(name),
    ensures
        count_in(counts, name) == counts[name],
{
}

/// `counts` after one more greeting of `name`.
pub open spec fn greeted(counts: Map<Seq<char>, u64>, name: Seq<char>) -> Map<Seq<char>, u64> {
    counts.insert(name, (count_in(counts, name) + 1) as u64)
}

/// Each greeting adds one to the count of its name and leaves every other
/// name's count as it was, so that two greetings in a row add one to each
/// name greeted, and two to a name greeted both times.
pub proof fn lemma_greetings_accumulate(
    counts: Map<Seq<char>, u64>,
    first: Seq<char>,
    second: Seq<char>,
    other: Seq<char>,
)
    requires
        count_in(counts, first) < u64::MAX - 1,
        count_in(counts, second) < u64::MAX - 1,
    ensures
        count_in(greeted(counts, first), first) == count_in(counts, first) + 1,
        other != first ==> count_in(greeted(counts, first), other) == count_in(counts, other),
        count_in(greeted(greeted(counts, first), second), first) == count_in(counts, first) + 1 + (
        if first == second {
            1int
        } else {
            0int
        }),
        other != first && other != second ==> count_in(
            greeted(greeted(counts, first), second),
            other,
        ) == count_in(counts, other),
{
}

/// The greeting sent to `name`, aged `age`, on their `count`-th greeting.
pub open spec fn greeting_text(count: nat, name: Seq<char>, age: nat) -> Seq<char> {
    "("@ + decimal(count) + ")Hello, "@ + name + ", you are "@ + decimal(age) + " years old"@
}

/// The greeting holds the whole name as given, whatever its length,
/// between ")Hello, " and ", you are ", after the count and before the
/// age, both written in decimal.
pub proof fn law_greeting_holds_the_whole_name(count: nat, name: Seq<char>, age: nat)
    ensures
        exists|d1: Seq<char>, d2: Seq<char>|
            #![trigger canonical_decimal(d1, count), canonical_decimal(d2, age)]
            canonical_decimal(d1, count) && canonical_decimal(d2, age) && greeting_text(
                count,
                name,
                age,
            ) == "("@ + d1 + ")Hello, "@ + name + ", you are "@ + d2 + " years old"@,
{
    lemma_decimal_is_canonical(count);
    lemma_decimal_is_canonical(age);
    assert(canonical_decimal(decimal(count), count) && canonical_decimal(decimal(age), age));
}

/// The greeting for `name`, aged `age`, on their `count`-th greeting.
pub fn greeting(count: u64, name: &str, age: u8) -> (res: String)
    ensures
        res@ == greeting_text(count as nat, name@, age as nat),
{
    let mut res = "(".to_owned();
    res.append(u64_to_decimal(count).as_str());
    res.append(")Hello, ");
    res.append(name);
    res.append(", you are ");
    res.append(u64_to_decimal(age as u64).as_str());
    res.append(" years old");
    res
}

/// The state shared by all hello dialogues: how often each name has been
/// greeted.
pub struct HelloInteraction {
    times: DashMap<String, u64>,
}

impl HelloInteraction {
    /// The greeting count of each name.
    pub closed spec fn counts(&self) -> Map<Seq<char>, u64> {
        greeting_counts(self.times)
    }

    /// No name greeted yet.
    pub fn new() -> (res: Self)
        ensures
            res.counts().dom() == Set::<Seq<char>>::empty(),
    {
        HelloInteraction { times: counts_new() }
    }

    /// Whether a dialogue starts on an event with `message`: the text of
    /// the message begins with `/hello`.
    pub fn should_start(&self, message: Option<&Message>) -> (res: bool)
        ensures
            res == (message matches Some(m) && "/hello"@.is_prefix_of(raw_text(m@.segments))),
    {
        match message {
            Some(m) => starts_with(m.get_raw_text().as_str(), "/hello"),
            None => false,
        }
    }

    /// How often `name` has been greeted.
    pub fn times_greeted(&self, name: &str) -> (res: u64)
        ensures
            res == count_in(self.counts(), name@),
            !self.counts().contains_key(name@) ==> res == 0,
            self.counts().contains_key(name@) ==> res == self.counts()[name@],
    {
        match counts_get(&self.times, name) {
            Some(c) => c,
            None => 0,
        }
    }

    /// Counts one more greeting of `name` and returns the new count; `None`,
    /// with nothing changed, when the count can grow no further.
    pub fn record_greeting(&mut self, name: &str) -> (res: Option<u64>)
        ensures
            count_in(old(self).counts(), name@) < u64::MAX ==> {
                &&& res == Some((count_in(old(self).counts(), name@) + 1) as u64)
                &&& final(self).counts() == greeted(old(self).counts(), name@)
            },
            !old(self).counts().contains_key(name@) ==> res == Some(1u64),
            !old(self).counts().contains_key(name@) ==> final(self).counts() == old(
                self,
            ).counts().insert(name@, 1),
            count_in(old(self).counts(), name@) == u64::MAX ==> {
                &&& res is None
                &&& final(self).counts() == old(self).counts()
            },
    {
        let current = self.times_greeted(name);
        if current == u64::MAX {
            return None;
        }
        let next = current + 1;
        counts_insert(&mut self.times, name.to_owned(), next);
        Some(next)
    }
}

/// Where a hello dialogue stands.
#[derive(Debug, Clone, PartialEq, Eq)]
pub enum HelloStage {
    /// The bot has asked for the user's name.
    AwaitingName,
    /// The bot has asked for the age of the user called `name`.
    AwaitingAge { name: String },
    /// The dialogue is over.
    Finished,
}

/// One hello dialogue with one user.
#[derive(Debug, Clone, PartialEq, Eq)]
pub struct HelloDialogue {
    pub stage: HelloStage,
}

/// The answer to an age that is not a number from 0 to 255.
pub open spec fn age_error_text() -> Seq<char> {
    "Input error, please enter a number (0-255)"@
}

impl HelloDialogue {
    /// A new dialogue: ask for the user's name and wait for it.
    pub fn start() -> (res: (HelloDialogue, Vec<Action>))
        ensures
            res.0.stage is AwaitingName,
            actions_view(res.1@) == seq![
                ActionView::Send(seq![SegmentView::Text("What's your name?"@)]),
                ActionView::WaitText,
            ],
    {
        let mut actions: Vec<Action> = Vec::new();
        actions.push(Action::Send(text_only("What's your name?".to_owned())));
        actions.push(Action::WaitText);
        assert(actions_view(actions@) =~= seq![
            ActionView::Send(seq![SegmentView::Text("What's your name?"@)]),
            ActionView::WaitText,
        ]);
        (HelloDialogue { stage: HelloStage::AwaitingName }, actions)
    }

    /// The next step on a message of the user with text `text`.
    ///
    /// After the question for the name, `text` is the name: ask for the
    /// age. After the question for the age, a text that is a `u8` is the
    /// age: count the greeting and greet the user, ending the dialogue;
    /// any other text is answered with the age error and the bot waits
    /// again. A finished dialogue does nothing.
    pub fn on_text(&mut self, interaction: &mut HelloInteraction, text: &str) -> (res: Vec<Action>)
        ensures
            old(self).stage is AwaitingName ==> {
                &&& final(self).stage matches HelloStage::AwaitingAge { name } && name@ == text@
                &&& actions_view(res@) == seq![
                    ActionView::Send(seq![SegmentView::Text("How old are you?"@)]),
                    ActionView::WaitText,
                ]
                &&& final(interaction).counts() == old(interaction).counts()
            },
            old(self).stage is AwaitingAge && parse_u8_spec(text@) is None
                ==> {
                &&& final(self).stage == old(self).stage
                &&& actions_view(res@) == seq![
                    ActionView::Send(seq![SegmentView::Text(age_error_text())]),
                    ActionView::WaitText,
                ]
                &&& final(interaction).counts() == old(interaction).counts()
            },
            old(self).stage is AwaitingAge && parse_u8_spec(text@) is Some
                && count_in(old(interaction).counts(), old(self).stage->name@) < u64::MAX ==> {
                &&& final(self).stage is Finished
                &&& final(interaction).counts() == greeted(
                    old(interaction).counts(),
                    old(self).stage->name@,
                )
                &&& actions_view(res@) == seq![
                    ActionView::Send(
                        seq![
                            SegmentView::Text(
                                greeting_text(
                                    (count_in(old(interaction).counts(), old(self).stage->name@) + 1) as nat,
                                    old(self).stage->name@,
                                    parse_u8_spec(text@)->0 as nat,
                                ),
                            ),
                        ],
                    ),
                ]
            },
            old(self).stage is AwaitingAge && parse_u8_spec(text@) is Some
                && count_in(old(interaction).counts(), old(self).stage->name@) == u64::MAX ==> {
                &&& final(self).stage is Finished
                &&& final(interaction).counts() == old(interaction).counts()
                &&& res@.len() == 0
            },
            old(self).stage is Finished ==> {
                &&& final(self).stage is Finished
                &&& final(interaction).counts() == old(interaction).counts()
                &&& res@.len() == 0
            },
    {
        let mut actions: Vec<Action> = Vec::new();
        match &self.stage {
            HelloStage::AwaitingName => {
                actions.push(Action::Send(text_only("How old are you?".to_owned())));
                actions.push(Action::WaitText);
                assert(actions_view(actions@) =~= seq![
                    ActionView::Send(seq![SegmentView::Text("How old are you?"@)]),
                    ActionView::WaitText,
                ]);
                self.stage = HelloStage::AwaitingAge { name: text.to_owned() };
            },
            HelloStage::AwaitingAge { name } => {
                match parse_u8(text) {
                    None => {
                        actions.push(
                            Action::Send(
                                text_only("Input error, please enter a number (0-255)".to_owned()),
                            ),
                        );
                        actions.push(Action::WaitText);
                        assert(actions_view(actions@) =~= seq![
                            ActionView::Send(seq![SegmentView::Text(age_error_text())]),
                            ActionView::WaitText,
                        ]);
                    },
                    Some(age) => {
                        let name = name.clone();
                        match interaction.record_greeting(name.as_str()) {
                            Some(count) => {
                                let text = greeting(count, name.as_str(), age);
                                let ghost t = text@;
                                actions.push(Action::Send(text_only(text)));
                                assert(actions_view(actions@) =~= seq![
                                    ActionView::Send(seq![SegmentView::Text(t)]),
                                ]);
                            },
                            None => {},
                        }
                        self.stage = HelloStage::Finished;
                    },
                }
            },
            HelloStage::Finished => {},
        }
        actions
    }

    /// The dialogue ends without a further step (a wait or a send failed).
    pub fn on_failure(&mut self)
        ensures
            final(self).stage is Finished,
    {
        self.stage = HelloStage::Finished;
    }
}

} // verus!
