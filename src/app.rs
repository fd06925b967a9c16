//! The root component as a reducer: messages update its state and name the
//! work the host must start; the view is a plain description of the panel.
use vstd::prelude::*;
use crate::decode::CacheEntry;
use crate::fetch::{DashboardData, FetchState};

verus! {

/// The messages that the component handles.
pub enum Msg {
    Increment,
    Decrement,
    FetchDashboard,
    SetDashboardFetchState(FetchState<DashboardData>),
}

/// Work that the host starts after an update.
#[derive(Clone, Copy, Debug, PartialEq, Eq)]
pub enum Effect {
    Nothing,
    /// Issue one GET to the endpoint and deliver its completion as a
    /// `SetDashboardFetchState` message.
    Fetch(&'static str),
}

/// The state of the page: the counter and the dashboard's fetch state.
pub struct App {
    pub value: i64,
    pub dashboard_data: FetchState<DashboardData>,
}

/// One card of the success panel.
#[derive(Clone, Copy, Debug, PartialEq, Eq, Structural)]
pub struct Card {
    pub id: u64,
    pub data_size: u64,
}

/// What the dashboard panel shows.
pub enum Panel {
    /// Idle: a control that sends `FetchDashboard`.
    Prompt,
    Loading,
    Cards(Vec<Card>),
    Failure,
}

pub open spec fn card_of(e: CacheEntry) -> Card {
    Card { id: e.id, data_size: e.data_size }
}

/// `panel` is the rendering of `state`: one case per variant.
pub open spec fn renders(state: FetchState<DashboardData>, panel: Panel) -> bool {
    match state {
        FetchState::NotFetching => panel is Prompt,
        FetchState::Fetching => panel is Loading,
        FetchState::Failed(_) => panel is Failure,
        FetchState::Success(d) => panel is Cards && panel->Cards_0@ == d.cache_list@.map_values(
            |e: CacheEntry| card_of(e),
        ),
    }
}

/// The work an update names.
pub open spec fn effect_of(msg: Msg) -> Effect {
    match msg {
        Msg::FetchDashboard => Effect::Fetch("/cache_list"),
        _ => Effect::Nothing,
    }
}

impl App {
    /// The counter can take the message without leaving `i64`.
    pub open spec fn counter_fits(self, msg: Msg) -> bool {
        match msg {
            Msg::Increment => self.value < i64::MAX,
            Msg::Decrement => self.value > i64::MIN,
            _ => true,
        }
    }

    /// The state after handling one message.
    pub open spec fn step(self, msg: Msg) -> App {
        match msg {
            Msg::Increment => App { value: (self.value + 1) as i64, dashboard_data: self.dashboard_data },
            Msg::Decrement => App { value: (self.value - 1) as i64, dashboard_data: self.dashboard_data },
            Msg::FetchDashboard => App { value: self.value, dashboard_data: FetchState::Fetching },
            Msg::SetDashboardFetchState(s) => App { value: self.value, dashboard_data: s },
        }
    }

    /// The state after handling the messages in order.
    pub open spec fn run(self, msgs: Seq<Msg>) -> App
        decreases msgs.len(),
    {
        if msgs.len() == 0 {
            self
        } else {
            self.run(msgs.drop_last()).step(msgs.last())
        }
    }

    /// The page as it is first shown: counter at zero, nothing fetched.
    pub fn create() -> (r: App)
        ensures
            r.value == 0,
            r.dashboard_data is NotFetching,
    {
        App { value: 0, dashboard_data: FetchState::NotFetching }
    }

    /// Handles one message. Returns whether the view changed and the work to
    /// start; a fetch request moves to `Fetching` at once and names the GET.
    pub fn update(&mut self, msg: Msg) -> (r: (bool, Effect))
        requires
            old(self).counter_fits(msg),
        ensures
            *final(self) == old(self).step(msg),
            r.0,
            r.1 == effect_of(msg),
    {
        match msg {
            Msg::Increment => {
                self.value = self.value + 1;
                (true, Effect::Nothing)
            },
            Msg::Decrement => {
                self.value = self.value - 1;
                (true, Effect::Nothing)
            },
            Msg::SetDashboardFetchState(fetch_state) => {
                self.dashboard_data = fetch_state;
                (true, Effect::Nothing)
            },
            Msg::FetchDashboard => {
                self.dashboard_data = FetchState::Fetching;
                (true, Effect::Fetch("/cache_list"))
            },
        }
    }

    /// The dashboard panel for the current state.
    pub fn view(&self) -> (r: Panel)
        ensures
            renders(self.dashboard_data, r),
    {
        match &self.dashboard_data {
            FetchState::NotFetching => Panel::Prompt,
            FetchState::Fetching => Panel::Loading,
            FetchState::Success(data) => {
                let mut card_list: Vec<Card> = Vec::new();
                let mut i: usize = 0;
                while i < data.cache_list.len()
                    invariant
                        i <= data.cache_list@.len(),
                        card_list@ == data.cache_list@.take(i as int).map_values(|e: CacheEntry| card_of(e)),
                    decreases data.cache_list@.len() - i,
                {
                    let entry = data.cache_list[i];
                    card_list.push(Card { id: entry.id, data_size: entry.data_size });
                    i += 1;
                    assert(data.cache_list@.take(i as int) == data.cache_list@.take(i - 1).push(entry));
                }
                assert(data.cache_list@.take(i as int) == data.cache_list@);
                Panel::Cards(card_list)
            },
            FetchState::Failed(_) => Panel::Failure,
        }
    }
}

/// The change a message makes to the counter.
pub open spec fn counter_delta(msg: Msg) -> int {
    match msg {
        Msg::Increment => 1,
        Msg::Decrement => -1,
        _ => 0,
    }
}

/// Increments minus decrements among the messages.
pub open spec fn net_count(msgs: Seq<Msg>) -> int
    decreases msgs.len(),
{
    if msgs.len() == 0 {
        0
    } else {
        net_count(msgs.drop_last()) + counter_delta(msgs.last())
    }
}

/// The counter stays within `i64` after every prefix of the messages.
pub open spec fn counter_stays_in_range(start: i64, msgs: Seq<Msg>) -> bool {
    forall|k: int|
        0 <= k <= msgs.len() ==> i64::MIN <= start + #[trigger] net_count(msgs.take(k)) <= i64::MAX
}

/// The state is exactly one of the four variants.
pub open spec fn exactly_one_variant(s: FetchState<DashboardData>) -> bool {
    (s is NotFetching) as int + (s is Fetching) as int + (s is Success) as int + (s is Failed) as int
        == 1
}

/// Whatever messages arrive, the fetch state is exactly one of the four
/// variants, and the view renders each of them.
pub proof fn lemma_state_always_renderable(app: App, msgs: Seq<Msg>)
    ensures
        exactly_one_variant(app.run(msgs).dashboard_data),
        forall|p: Panel| #[trigger] renders(app.run(msgs).dashboard_data, p) ==> match app.run(msgs).dashboard_data {
            FetchState::NotFetching => p is Prompt,
            FetchState::Fetching => p is Loading,
            FetchState::Success(_) => p is Cards,
            FetchState::Failed(_) => p is Failure,
        },
{
}

/// A fetch request moves to `Fetching` at once, whatever the state was, and
/// only names the request: no completion is applied by it.
pub proof fn lemma_trigger_yields_fetching(app: App)
    ensures
        app.step(Msg::FetchDashboard).dashboard_data is Fetching,
        app.step(Msg::FetchDashboard).value == app.value,
        effect_of(Msg::FetchDashboard) == Effect::Fetch("/cache_list"),
{
}

/// The counter counts: after any messages, fetch events included, it has
/// moved by the increments minus the decrements.
pub proof fn lemma_counter_is_net_count(app: App, msgs: Seq<Msg>)
    requires
        counter_stays_in_range(app.value, msgs),
    ensures
        app.run(msgs).value == app.value + net_count(msgs),
    decreases msgs.len(),
{
    if msgs.len() > 0 {
        let front = msgs.drop_last();
        assert forall|k: int| 0 <= k <= front.len() implies i64::MIN <= app.value + #[trigger] net_count(
            front.take(k),
        ) <= i64::MAX by {
            assert(front.take(k) == msgs.take(k));
        }
        lemma_counter_is_net_count(app, front);
        assert(msgs.take(msgs.len() as int) == msgs);
    }
}

/// An increment followed by a decrement leaves the state as it was.
pub proof fn lemma_increment_then_decrement(app: App)
    requires
        app.value < i64::MAX,
    ensures
        app.step(Msg::Increment).step(Msg::Decrement) == app,
{
}

/// Re-triggering while a fetch is outstanding keeps a valid `Fetching`, and
/// of two completions the one delivered last is the state observed.
pub proof fn lemma_last_completion_wins(
    app: App,
    first: FetchState<DashboardData>,
    second: FetchState<DashboardData>,
)
    requires
        first is Success || first is Failed,
        second is Success || second is Failed,
    ensures
        app.step(Msg::FetchDashboard).step(Msg::FetchDashboard).dashboard_data is Fetching,
        app.run(
            seq![
                Msg::FetchDashboard,
                Msg::FetchDashboard,
                Msg::SetDashboardFetchState(first),
                Msg::SetDashboardFetchState(second),
            ],
        ).dashboard_data == second,
        app.run(
            seq![
                Msg::FetchDashboard,
                Msg::FetchDashboard,
                Msg::SetDashboardFetchState(first),
                Msg::SetDashboardFetchState(second),
            ],
        ).value == app.value,
{
    let msgs = seq![
        Msg::FetchDashboard,
        Msg::FetchDashboard,
        Msg::SetDashboardFetchState(first),
        Msg::SetDashboardFetchState(second),
    ];
    assert(msgs.drop_last().drop_last().drop_last().drop_last() == Seq::<Msg>::empty());
    reveal_with_fuel(App::run, 5);
}

} // verus!
