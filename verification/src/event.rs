//! The event centre and the timer centre.
//!
//! The event centre keeps, for each event name, the callbacks registered for
//! it, each with a flag that `event_emit` raises and `event_check` consumes:
//! a registered callback sees an emitted event exactly once. Timers count
//! frames down and emit the event of their name when they run out.
//!
//! Both centres are plain values here; a program that wants them global
//! keeps one of each and passes it in.
use crate::strmap::{
    keys_unique, lemma_entries_map_dom, lemma_entries_map_index, lemma_entries_map_values,
    lemma_strmap_replace, StrMap,
};
use vstd::prelude::*;

verus! {

/// The abstract event centre: for each event, its callbacks and their
/// raised flags.
pub type EventMap = Map<Seq<char>, Map<Seq<char>, bool>>;

/// Registering `func` for `event` adds it with its flag lowered (lowering it
/// again when it was there), creating the event when needed.
pub open spec fn spec_register(m: EventMap, event: Seq<char>, func: Seq<char>) -> EventMap {
    let cbs = if m.contains_key(event) {
        m[event]
    } else {
        Map::empty()
    };
    m.insert(event, cbs.insert(func, false))
}

/// Whether the flag of `func` for `event` is raised.
pub open spec fn spec_flag(m: EventMap, event: Seq<char>, func: Seq<char>) -> bool {
    m.contains_key(event) && m[event].contains_key(func) && m[event][func]
}

/// The centre after a check: a raised flag is lowered.
pub open spec fn spec_after_check(m: EventMap, event: Seq<char>, func: Seq<char>) -> EventMap {
    if spec_flag(m, event, func) {
        m.insert(event, m[event].insert(func, false))
    } else {
        m
    }
}

/// Every callback of `cbs` with its flag raised.
pub open spec fn all_raised(cbs: Map<Seq<char>, bool>) -> Map<Seq<char>, bool> {
    Map::new(|k: Seq<char>| cbs.contains_key(k), |k: Seq<char>| true)
}

/// The centre after emitting `event`: all its callbacks' flags raised.
pub open spec fn spec_emit(m: EventMap, event: Seq<char>) -> EventMap {
    if m.contains_key(event) {
        m.insert(event, all_raised(m[event]))
    } else {
        m
    }
}

/// The centre after emitting every event of `names`.
pub open spec fn spec_emit_all(m: EventMap, names: Set<Seq<char>>) -> EventMap {
    Map::new(
        |k: Seq<char>| m.contains_key(k),
        |k: Seq<char>|
            if names.contains(k) {
                all_raised(m[k])
            } else {
                m[k]
            },
    )
}

/// Callbacks registered per event, with a raised/lowered flag each.
pub struct EventCenter {
    events: StrMap<StrMap<bool>>,
}

impl View for EventCenter {
    type V = EventMap;

    closed spec fn view(&self) -> EventMap {
        Map::new(|k: Seq<char>| self.events@.contains_key(k), |k: Seq<char>| self.events@[k]@)
    }
}

impl EventCenter {
    /// Event names are distinct, and so are callback names within an event.
    pub closed spec fn wf(&self) -> bool {
        &&& self.events.wf()
        &&& forall|i: int|
            0 <= i < self.events.entries().len() ==> (#[trigger] self.events.entries()[i]).1.wf()
    }

    /// An empty centre.
    pub fn new() -> (ec: Self)
        ensures
            ec.wf(),
            ec@ == EventMap::empty(),
    {
        let ec = EventCenter { events: StrMap::new() };
        assert(ec@ =~= EventMap::empty());
        ec
    }
}

proof fn lemma_inner_wf(outer: StrMap<StrMap<bool>>, i: int)
    requires
        outer.wf(),
        0 <= i < outer.entries().len(),
        forall|j: int| 0 <= j < outer.entries().len() ==> (#[trigger] outer.entries()[j]).1.wf(),
    ensures
        outer@.contains_key(outer.entries()[i].0@),
        outer@[outer.entries()[i].0@] == outer.entries()[i].1,
        outer.entries()[i].1.wf(),
{
    outer.lemma_view();
    lemma_entries_map_index(outer.entries(), i);
}

/// Replaces the callbacks of the event at position `i` of the centre.
proof fn lemma_replace_event(
    before: StrMap<StrMap<bool>>,
    after: StrMap<StrMap<bool>>,
    i: int,
    cbs: StrMap<bool>,
)
    requires
        before.wf(),
        0 <= i < before.entries().len(),
        after.entries() == before.entries().update(i, (before.entries()[i].0, cbs)),
        forall|j: int|
            0 <= j < before.entries().len() ==> (#[trigger] before.entries()[j]).1.wf(),
        cbs.wf(),
    ensures
        after.wf(),
        after@ == before@.insert(before.entries()[i].0@, cbs),
        forall|j: int| 0 <= j < after.entries().len() ==> (#[trigger] after.entries()[j]).1.wf(),
{
    before.lemma_view();
    after.lemma_view();
    lemma_strmap_replace(before.entries(), after.entries(), i, cbs);
    assert forall|j: int| 0 <= j < after.entries().len() implies (#[trigger] after.entries()[j]).1.wf() by {
        if j != i {
            assert(after.entries()[j] == before.entries()[j]);
        }
    }
}

/// Registers `func` as a callback of `event`, with its flag lowered.
pub fn event_register(ec: &mut EventCenter, event: &str, func: &str)
    requires
        old(ec).wf(),
    ensures
        final(ec).wf(),
        final(ec)@ == spec_register(old(ec)@, event@, func@),
{
    match ec.events.find(event) {
        Some(i) => {
            let ghost before = ec.events;
            proof {
                lemma_inner_wf(before, i as int);
            }
            let cbs = ec.events.value_mut(i);
            cbs.insert(func, false);
            proof {
                lemma_replace_event(before, ec.events, i as int, *cbs);
            }
        },
        None => {
            let mut h: StrMap<bool> = StrMap::new();
            h.insert(func, false);
            let ghost before = ec.events;
            ec.events.push_new(event, h);
            proof {
                before.lemma_view();
                ec.events.lemma_view();
                assert forall|j: int|
                    0 <= j < ec.events.entries().len() implies (#[trigger] ec.events.entries()[j]).1.wf() by {
                    if j < before.entries().len() {
                        assert(ec.events.entries()[j] == before.entries()[j]);
                    }
                }
            }
        },
    }
    assert(ec@ =~= spec_register(old(ec)@, event@, func@));
}

/// Consumes the event for a callback: returns whether its flag was raised,
/// and lowers it.
pub fn event_check(ec: &mut EventCenter, event: &str, func: &str) -> (r: bool)
    requires
        old(ec).wf(),
    ensures
        final(ec).wf(),
        r == spec_flag(old(ec)@, event@, func@),
        final(ec)@ == spec_after_check(old(ec)@, event@, func@),
{
    if let Some(i) = ec.events.find(event) {
        let ghost before = ec.events;
        proof {
            lemma_inner_wf(before, i as int);
        }
        let cbs = ec.events.value_mut(i);
        let ghost cbs0 = *cbs;
        proof {
            cbs0.lemma_view();
        }
        if let Some(j) = cbs.find(func) {
            let raised = *cbs.value_at(j);
            if raised {
                let flag = cbs.value_mut(j);
                *flag = false;
                proof {
                    lemma_strmap_replace(cbs0.entries(), cbs.entries(), j as int, false);
                    cbs.lemma_view();
                    lemma_replace_event(before, ec.events, i as int, *cbs);
                }
                assert(ec@ =~= spec_after_check(old(ec)@, event@, func@));
                return true;
            }
        }
        proof {
            lemma_replace_event(before, ec.events, i as int, *cbs);
        }
        assert(ec@ =~= old(ec)@);
    }
    false
}

/// Raises the flags of all callbacks of `event`.
pub fn event_emit(ec: &mut EventCenter, event: &str)
    requires
        old(ec).wf(),
    ensures
        final(ec).wf(),
        final(ec)@ == spec_emit(old(ec)@, event@),
{
    if let Some(i) = ec.events.find(event) {
        let ghost before = ec.events;
        proof {
            lemma_inner_wf(before, i as int);
        }
        let cbs = ec.events.value_mut(i);
        let ghost cbs0 = *cbs;
        let n = cbs.len();
        let mut j: usize = 0;
        while j < n
            invariant
                n == cbs0.entries().len(),
                cbs.entries().len() == n,
                0 <= j <= n,
                forall|t: int|
                    0 <= t < n ==> (#[trigger] cbs.entries()[t]).0 == cbs0.entries()[t].0,
                forall|t: int| 0 <= t < j ==> (#[trigger] cbs.entries()[t]).1,
                forall|t: int| j <= t < n ==> #[trigger] cbs.entries()[t] == cbs0.entries()[t],
            decreases n - j,
        {
            let flag = cbs.value_mut(j);
            if !*flag {
                *flag = true;
            }
            j += 1;
        }
        proof {
            cbs0.lemma_view();
            cbs.lemma_view();
            let f = |b: bool| true;
            assert forall|t: int| #![trigger cbs.entries()[t]]
                0 <= t < n implies cbs.entries()[t] == (cbs0.entries()[t].0, f(cbs0.entries()[t].1)) by {
                assert(cbs.entries()[t].0 == cbs0.entries()[t].0);
                assert(cbs.entries()[t].1);
            }
            lemma_entries_map_values(cbs0.entries(), cbs.entries(), f);
            assert(cbs@ =~= all_raised(cbs0@));
            lemma_replace_event(before, ec.events, i as int, *cbs);
        }
        assert(ec@ =~= spec_emit(old(ec)@, event@));
    }
}

/// The emit that a centre sees last decides nothing: emitting `event` into
/// a centre where a set of events was emitted is emitting the set with
/// `event` added.
proof fn lemma_emit_into_all(m: EventMap, names: Set<Seq<char>>, event: Seq<char>)
    ensures
        spec_emit(spec_emit_all(m, names), event) =~= spec_emit_all(m, names.insert(event)),
{
    if m.contains_key(event) {
        assert(all_raised(all_raised(m[event])) =~= all_raised(m[event]));
    }
}

/// The abstract state of a timer: the frames left before it fires, the
/// frames it counts from when started, and the data given when started.
pub struct TimerView {
    pub time: u32,
    pub count: u32,
    pub exdata: Seq<u8>,
}

/// A timer that counts frames down from `count`, with data attached.
pub struct Timer {
    time: u32,
    count: u32,
    exdata: Vec<u8>,
}

impl View for Timer {
    type V = TimerView;

    closed spec fn view(&self) -> TimerView {
        TimerView { time: self.time, count: self.count, exdata: self.exdata@ }
    }
}

/// One frame of a timer: a running timer counts one frame down.
pub open spec fn spec_tick(t: TimerView) -> TimerView {
    if t.time > 0 {
        TimerView { time: (t.time - 1) as u32, ..t }
    } else {
        t
    }
}

/// The abstract timer centre: a timer per name.
pub type TimerMap = Map<Seq<char>, TimerView>;

/// All timers after one frame.
pub open spec fn spec_timers_tick(m: TimerMap) -> TimerMap {
    Map::new(|k: Seq<char>| m.contains_key(k), |k: Seq<char>| spec_tick(m[k]))
}

/// The timers that run out in the next frame.
pub open spec fn expiring(m: TimerMap) -> Set<Seq<char>> {
    Set::new(|k: Seq<char>| m.contains_key(k) && m[k].time == 1)
}

/// The timers after registering `name` with a count of `frames`: a new
/// stopped timer, unless one of that name exists.
pub open spec fn spec_timer_register(m: TimerMap, name: Seq<char>, frames: u32) -> TimerMap {
    if m.contains_key(name) {
        m
    } else {
        m.insert(name, TimerView { time: 0, count: frames, exdata: Seq::empty() })
    }
}

/// The timers after setting the count of `name` to `frames` (at least 1).
pub open spec fn spec_set_time(m: TimerMap, name: Seq<char>, frames: u32) -> TimerMap {
    if m.contains_key(name) {
        m.insert(name, TimerView { count: if frames == 0 { 1 } else { frames }, ..m[name] })
    } else {
        m
    }
}

/// The timers after starting `name` with data `exdata`.
pub open spec fn spec_fire(m: TimerMap, name: Seq<char>, exdata: Seq<u8>) -> TimerMap {
    if m.contains_key(name) {
        m.insert(name, TimerView { time: m[name].count, count: m[name].count, exdata })
    } else {
        m
    }
}

/// The timers after stopping `name`.
pub open spec fn spec_cancel(m: TimerMap, name: Seq<char>) -> TimerMap {
    if m.contains_key(name) {
        m.insert(name, TimerView { time: 0, ..m[name] })
    } else {
        m
    }
}

/// The frames left before `name` fires; 0 for no such timer.
pub open spec fn spec_stage(m: TimerMap, name: Seq<char>) -> u32 {
    if m.contains_key(name) {
        m[name].time
    } else {
        0
    }
}

/// Timers by name.
pub struct Timers {
    timers: StrMap<Timer>,
}

impl View for Timers {
    type V = TimerMap;

    closed spec fn view(&self) -> TimerMap {
        Map::new(|k: Seq<char>| self.timers@.contains_key(k), |k: Seq<char>| self.timers@[k]@)
    }
}

spec fn timer_tick(t: Timer) -> Timer {
    if t.time > 0 {
        Timer { time: (t.time - 1) as u32, count: t.count, exdata: t.exdata }
    } else {
        t
    }
}

fn copy_bytes(v: &Vec<u8>) -> (r: Vec<u8>)
    ensures
        r@ == v@,
{
    let mut r: Vec<u8> = Vec::new();
    let n = v.len();
    let mut i: usize = 0;
    while i < n
        invariant
            n == v@.len(),
            0 <= i <= n,
            r@ == v@.take(i as int),
        decreases n - i,
    {
        r.push(v[i]);
        i += 1;
        assert(r@ =~= v@.take(i as int));
    }
    assert(v@.take(n as int) =~= v@);
    r
}

impl Timers {
    /// Names are distinct.
    pub closed spec fn wf(&self) -> bool {
        self.timers.wf()
    }

    proof fn lemma_lookup(&self, i: int)
        requires
            self.wf(),
            0 <= i < self.timers.entries().len(),
        ensures
            self@.contains_key(self.timers.entries()[i].0@),
            self@[self.timers.entries()[i].0@] == self.timers.entries()[i].1@,
    {
        self.timers.lemma_view();
        lemma_entries_map_index(self.timers.entries(), i);
    }

    /// Replacing the timer at a position keeps the names distinct and
    /// replaces the timer of that name.
    proof fn lemma_replace(before: Self, after: Self, i: int, t: Timer)
        requires
            before.wf(),
            0 <= i < before.timers.entries().len(),
            after.timers.entries() == before.timers.entries().update(i, (before.timers.entries()[i].0, t)),
        ensures
            after.wf(),
            after@ == before@.insert(before.timers.entries()[i].0@, t@),
    {
        before.timers.lemma_view();
        after.timers.lemma_view();
        lemma_strmap_replace(before.timers.entries(), after.timers.entries(), i, t);
        assert(after@ =~= before@.insert(before.timers.entries()[i].0@, t@));
    }

    /// No timers.
    pub fn new() -> (t: Self)
        ensures
            t.wf(),
            t@ == TimerMap::empty(),
    {
        let t = Timers { timers: StrMap::new() };
        assert(t@ =~= TimerMap::empty());
        t
    }

    /// Adds a stopped timer `name` that counts `frames` frames when started,
    /// and registers `callback` for the event `name`. A timer that exists
    /// already is left as it is, and nothing is registered.
    pub fn register(&mut self, name: &str, frames: u32, callback: &str, ec: &mut EventCenter)
        requires
            old(self).wf(),
            old(ec).wf(),
        ensures
            final(self).wf(),
            final(ec).wf(),
            final(self)@ == spec_timer_register(old(self)@, name@, frames),
            final(ec)@ == (if old(self)@.contains_key(name@) {
                old(ec)@
            } else {
                spec_register(old(ec)@, name@, callback@)
            }),
    {
        match self.timers.find(name) {
            Some(_) => {},
            None => {
                let timer = Timer { time: 0, count: frames, exdata: Vec::new() };
                proof {
                    self.timers.lemma_view();
                }
                self.timers.push_new(name, timer);
                proof {
                    self.timers.lemma_view();
                }
                assert(self@ =~= old(self)@.insert(
                    name@,
                    TimerView { time: 0, count: frames, exdata: Seq::empty() },
                ));
                event_register(ec, name, callback);
            },
        }
    }

    /// The frames left before timer `name` fires; 0 when there is no such
    /// timer.
    pub fn stage(&self, name: &str) -> (r: u32)
        requires
            self.wf(),
        ensures
            r == spec_stage(self@, name@),
    {
        proof {
            self.timers.lemma_view();
        }
        match self.timers.get(name) {
            Some(timer) => timer.time,
            None => 0,
        }
    }

    /// The frames that timer `name` counts when started; 0 when there is no
    /// such timer.
    pub fn count(&self, name: &str) -> (r: u32)
        requires
            self.wf(),
        ensures
            r == (if self@.contains_key(name@) {
                self@[name@].count
            } else {
                0
            }),
    {
        proof {
            self.timers.lemma_view();
        }
        match self.timers.get(name) {
            Some(timer) => timer.count,
            None => 0,
        }
    }

    /// The frames that timer `name` has run since it was started; 0 when
    /// there is no such timer.
    pub fn rstage(&self, name: &str) -> (r: u32)
        requires
            self.wf(),
            self@.contains_key(name@) ==> self@[name@].time <= self@[name@].count,
        ensures
            r == (if self@.contains_key(name@) {
                self@[name@].count - self@[name@].time
            } else {
                0
            }),
    {
        proof {
            self.timers.lemma_view();
        }
        match self.timers.get(name) {
            Some(timer) => timer.count - timer.time,
            None => 0,
        }
    }

    /// Sets the frames that timer `name` counts when started; a count of 0
    /// becomes 1, so that the timer can still fire.
    pub fn set_time(&mut self, name: &str, frames: u32)
        requires
            old(self).wf(),
        ensures
            final(self).wf(),
            final(self)@ == spec_set_time(old(self)@, name@, frames),
    {
        if let Some(i) = self.timers.find(name) {
            let ghost before = *self;
            proof {
                before.lemma_lookup(i as int);
            }
            let timer = self.timers.value_mut(i);
            timer.count = frames;
            if timer.count == 0 {
                timer.count += 1;
            }
            proof {
                Self::lemma_replace(before, *self, i as int, *timer);
            }
        }
    }

    /// The data attached to timer `name`, if there is such a timer.
    pub fn exdata(&self, name: &str) -> (r: Option<Vec<u8>>)
        requires
            self.wf(),
        ensures
            r is None <==> !self@.contains_key(name@),
            r matches Some(d) ==> d@ == self@[name@].exdata,
    {
        proof {
            self.timers.lemma_view();
        }
        match self.timers.get(name) {
            Some(timer) => Some(copy_bytes(&timer.exdata)),
            None => None,
        }
    }

    /// Starts timer `name`: it will fire after its count of frames, and
    /// carries `exdata` (the serialised value it was fired with).
    pub fn fire(&mut self, name: &str, exdata: Vec<u8>)
        requires
            old(self).wf(),
        ensures
            final(self).wf(),
            final(self)@ == spec_fire(old(self)@, name@, exdata@),
    {
        if let Some(i) = self.timers.find(name) {
            let ghost before = *self;
            proof {
                before.lemma_lookup(i as int);
            }
            let timer = self.timers.value_mut(i);
            timer.time = timer.count;
            timer.exdata = exdata;
            proof {
                Self::lemma_replace(before, *self, i as int, *timer);
            }
        }
    }

    /// Stops timer `name`; unless `nocall`, its event is emitted.
    pub fn cancel(&mut self, name: &str, nocall: bool, ec: &mut EventCenter)
        requires
            old(self).wf(),
            old(ec).wf(),
        ensures
            final(self).wf(),
            final(ec).wf(),
            final(self)@ == spec_cancel(old(self)@, name@),
            final(ec)@ == (if old(self)@.contains_key(name@) && !nocall {
                spec_emit(old(ec)@, name@)
            } else {
                old(ec)@
            }),
    {
        if let Some(i) = self.timers.find(name) {
            let ghost before = *self;
            proof {
                before.lemma_lookup(i as int);
            }
            let timer = self.timers.value_mut(i);
            timer.time = 0;
            proof {
                Self::lemma_replace(before, *self, i as int, *timer);
            }
            if !nocall {
                event_emit(ec, name);
            }
        }
    }

    /// Advances all timers by one frame: each running timer counts down, and
    /// each one that reaches 0 emits its event.
    pub fn update(&mut self, ec: &mut EventCenter)
        requires
            old(self).wf(),
            old(ec).wf(),
        ensures
            final(self).wf(),
            final(ec).wf(),
            final(self)@ == spec_timers_tick(old(self)@),
            final(ec)@ == spec_emit_all(old(ec)@, expiring(old(self)@)),
    {
        let ghost s0 = self.timers.entries();
        let ghost ec0 = ec@;
        proof {
            self.timers.lemma_view();
            lemma_entries_map_dom(s0);
        }
        let n = self.timers.len();
        let mut j: usize = 0;
        assert(ec@ =~= spec_emit_all(ec0, Set::empty()));
        while j < n
            invariant
                n == s0.len(),
                keys_unique(s0),
                ec.wf(),
                self.timers.entries().len() == n,
                0 <= j <= n,
                forall|t: int|
                    #![trigger self.timers.entries()[t]]
                    0 <= t < j ==> self.timers.entries()[t] == (s0[t].0, timer_tick(s0[t].1)),
                forall|t: int|
                    #![trigger self.timers.entries()[t]]
                    j <= t < n ==> self.timers.entries()[t] == s0[t],
                ec@ == spec_emit_all(
                    ec0,
                    Set::new(|k: Seq<char>| exists|t: int| 0 <= t < j && s0[t].0@ == k && s0[t].1.time == 1),
                ),
            decreases n - j,
        {
            let ghost names = Set::new(
                |k: Seq<char>| exists|t: int| 0 <= t < j && s0[t].0@ == k && s0[t].1.time == 1,
            );
            let key = self.timers.key_at(j).clone();
            let timer = self.timers.value_mut(j);
            let mut fired = false;
            if timer.time > 0 {
                timer.time -= 1;
                if timer.time == 0 {
                    fired = true;
                }
            }
            if fired {
                event_emit(ec, key.as_str());
                proof {
                    lemma_emit_into_all(ec0, names, key@);
                }
            }
            proof {
                let next = Set::new(
                    |k: Seq<char>| exists|t: int| 0 <= t < j + 1 && s0[t].0@ == k && s0[t].1.time == 1,
                );
                if fired {
                    assert(names.insert(key@) =~= next) by {
                        assert(s0[j as int].0@ == key@);
                    }
                } else {
                    assert(names =~= next);
                }
            }
            j += 1;
        }
        proof {
            let t = self.timers.entries();
            lemma_entries_map_values(s0, t, |x: Timer| timer_tick(x));
            self.timers.lemma_view();
            assert(self@ =~= spec_timers_tick(old(self)@));
            let all = Set::new(
                |k: Seq<char>| exists|t: int| 0 <= t < n && s0[t].0@ == k && s0[t].1.time == 1,
            );
            assert forall|k: Seq<char>| all.contains(k) <==> expiring(old(self)@).contains(k) by {
                if all.contains(k) {
                    let t = choose|t: int| 0 <= t < n && s0[t].0@ == k && s0[t].1.time == 1;
                    lemma_entries_map_index(s0, t);
                }
                if expiring(old(self)@).contains(k) {
                    let t = choose|t: int| 0 <= t < s0.len() && s0[t].0@ == k;
                    lemma_entries_map_index(s0, t);
                }
            }
            assert(all =~= expiring(old(self)@));
        }
    }
}

/// A callback that was just registered has not seen its event: its flag
/// is lowered, whatever it was before.
pub proof fn law_register_lowers_flag(m: EventMap, event: Seq<char>, func: Seq<char>)
    ensures
        spec_register(m, event, func).contains_key(event),
        spec_register(m, event, func)[event].contains_key(func),
        !spec_flag(spec_register(m, event, func), event, func),
{
}

/// A registered callback sees an emitted event exactly once: the first check
/// after an emit answers `true`, the next one `false`.
pub proof fn law_emit_is_seen_once(m: EventMap, event: Seq<char>, func: Seq<char>)
    requires
        m.contains_key(event),
        m[event].contains_key(func),
    ensures
        spec_flag(spec_emit(m, event), event, func),
        !spec_flag(spec_after_check(spec_emit(m, event), event, func), event, func),
{
}

/// A check that answers `false` changes nothing.
pub proof fn law_failed_check_is_silent(m: EventMap, event: Seq<char>, func: Seq<char>)
    requires
        !spec_flag(m, event, func),
    ensures
        spec_after_check(m, event, func) == m,
{
}

/// Emitting an event twice is emitting it once.
pub proof fn law_emit_idempotent(m: EventMap, event: Seq<char>)
    ensures
        spec_emit(spec_emit(m, event), event) == spec_emit(m, event),
{
    if m.contains_key(event) {
        assert(all_raised(all_raised(m[event])) =~= all_raised(m[event]));
        assert(spec_emit(spec_emit(m, event), event) =~= spec_emit(m, event));
    }
}

/// The order of two emits does not matter; this is why the timers may fire
/// in any order within a frame.
pub proof fn law_emits_commute(m: EventMap, a: Seq<char>, b: Seq<char>)
    ensures
        spec_emit(spec_emit(m, a), b) == spec_emit(spec_emit(m, b), a),
{
    if a == b {
    } else {
        assert(spec_emit(spec_emit(m, a), b) =~= spec_emit(spec_emit(m, b), a));
    }
}

/// Emitting an event leaves every other event as it was.
pub proof fn law_emit_is_local(m: EventMap, event: Seq<char>, other: Seq<char>)
    requires
        other != event,
    ensures
        spec_emit(m, event).contains_key(other) == m.contains_key(other),
        m.contains_key(other) ==> spec_emit(m, event)[other] == m[other],
{
}

/// Registering `func` for `event` touches no other flag: every other
/// callback of `event`, and every callback of every other event, keeps its
/// flag and stays registered or not as before; `func` itself ends
/// registered with its flag lowered.
pub proof fn law_register_is_local(
    m: EventMap,
    event: Seq<char>,
    func: Seq<char>,
    ev: Seq<char>,
    f: Seq<char>,
)
    ensures
        spec_register(m, event, func).contains_key(event),
        spec_register(m, event, func)[event].contains_key(func),
        !spec_flag(spec_register(m, event, func), event, func),
        ev != event || f != func ==> spec_flag(spec_register(m, event, func), ev, f) == spec_flag(
            m,
            ev,
            f,
        ),
        ev != event || f != func ==> ((spec_register(m, event, func).contains_key(ev)
            && spec_register(m, event, func)[ev].contains_key(f)) <==> (m.contains_key(ev)
            && m[ev].contains_key(f))),
{
}

/// Changing the count of a timer changes nothing else: every timer keeps
/// the frames it has left (a running timer keeps running and fires when it
/// would have), its data and whether it exists; the timer `name`, when it
/// exists, counts `frames` frames (at least 1) from its next start.
pub proof fn law_set_time_keeps_running(m: TimerMap, name: Seq<char>, frames: u32, other: Seq<char>)
    ensures
        spec_stage(spec_set_time(m, name, frames), other) == spec_stage(m, other),
        spec_set_time(m, name, frames).contains_key(other) == m.contains_key(other),
        m.contains_key(other) ==> spec_set_time(m, name, frames)[other].time == m[other].time
            && spec_set_time(m, name, frames)[other].exdata == m[other].exdata,
        other != name && m.contains_key(other) ==> spec_set_time(m, name, frames)[other]
            == m[other],
        m.contains_key(name) ==> spec_set_time(m, name, frames)[name].count == (if frames
            == 0 {
            1
        } else {
            frames
        }),
{
}

/// The timers after `n` frames.
pub open spec fn spec_timers_ticks(m: TimerMap, n: nat) -> TimerMap
    decreases n,
{
    if n == 0 {
        m
    } else {
        spec_timers_tick(spec_timers_ticks(m, (n - 1) as nat))
    }
}

/// A started timer counts its frames down one by one: `i` frames after it
/// was started with a count of `c`, `c - i` frames are left (for `i <= c`).
pub proof fn law_fired_timer_counts_down(m: TimerMap, name: Seq<char>, exdata: Seq<u8>, i: nat)
    requires
        m.contains_key(name),
        i <= m[name].count,
    ensures
        spec_timers_ticks(spec_fire(m, name, exdata), i).contains_key(name),
        spec_timers_ticks(spec_fire(m, name, exdata), i)[name].time == m[name].count - i,
        spec_timers_ticks(spec_fire(m, name, exdata), i)[name].count == m[name].count,
    decreases i,
{
    if i > 0 {
        law_fired_timer_counts_down(m, name, exdata, (i - 1) as nat);
    }
}

/// A timer started with a count of `c >= 1` emits its event in frame `c`
/// and in no frame before: it is among the expiring timers after `c - 1`
/// frames and not after fewer.
pub proof fn law_fired_timer_expires_on_time(m: TimerMap, name: Seq<char>, exdata: Seq<u8>, i: nat)
    requires
        m.contains_key(name),
        1 <= m[name].count,
        i < m[name].count,
    ensures
        expiring(spec_timers_ticks(spec_fire(m, name, exdata), i)).contains(name) <==> i
            == m[name].count - 1,
{
    law_fired_timer_counts_down(m, name, exdata, i);
}

/// A stopped timer stays stopped and never expires.
pub proof fn law_cancelled_timer_is_silent(m: TimerMap, name: Seq<char>, i: nat)
    requires
        m.contains_key(name),
    ensures
        spec_timers_ticks(spec_cancel(m, name), i).contains_key(name),
        spec_timers_ticks(spec_cancel(m, name), i)[name].time == 0,
        !expiring(spec_timers_ticks(spec_cancel(m, name), i)).contains(name),
    decreases i,
{
    if i > 0 {
        law_cancelled_timer_is_silent(m, name, (i - 1) as nat);
    }
}

/// The event centre after `n` frames of the timers `t`, starting from `e`:
/// each frame emits the events of the timers that run out in it.
pub open spec fn spec_frames(t: TimerMap, e: EventMap, n: nat) -> EventMap
    decreases n,
{
    if n == 0 {
        e
    } else {
        spec_emit_all(spec_frames(t, e, (n - 1) as nat), expiring(spec_timers_ticks(t, (n - 1) as nat)))
    }
}

/// A timer started with a count of `c >= 1`, whose callback `func` is
/// registered with its flag lowered, raises that flag in frame `c` and not
/// before: after `k <= c` frames the flag is raised exactly when `k == c`.
pub proof fn law_fired_timer_raises_flag_on_time(
    m: TimerMap,
    e: EventMap,
    name: Seq<char>,
    func: Seq<char>,
    exdata: Seq<u8>,
    k: nat,
)
    requires
        m.contains_key(name),
        1 <= m[name].count,
        k <= m[name].count,
        e.contains_key(name),
        e[name].contains_key(func),
        !e[name][func],
    ensures
        spec_frames(spec_fire(m, name, exdata), e, k).contains_key(name),
        spec_frames(spec_fire(m, name, exdata), e, k)[name].contains_key(func),
        spec_flag(spec_frames(spec_fire(m, name, exdata), e, k), name, func) <==> k == m[name].count,
    decreases k,
{
    if k > 0 {
        let k1 = (k - 1) as nat;
        law_fired_timer_raises_flag_on_time(m, e, name, func, exdata, k1);
        law_fired_timer_expires_on_time(m, name, exdata, k1);
    }
}

/// Registers timer `name` counting `frames` frames, with `func` as the
/// callback of its event.
pub fn timer_register(timers: &mut Timers, ec: &mut EventCenter, name: &str, frames: u32, func: &str)
    requires
        old(timers).wf(),
        old(ec).wf(),
    ensures
        final(timers).wf(),
        final(ec).wf(),
        final(timers)@ == spec_timer_register(old(timers)@, name@, frames),
        final(ec)@ == (if old(timers)@.contains_key(name@) {
            old(ec)@
        } else {
            spec_register(old(ec)@, name@, func@)
        }),
{
    timers.register(name, frames, func, ec);
}

/// Sets the count of timer `name` to `frames` (at least 1).
pub fn timer_set_time(timers: &mut Timers, name: &str, frames: u32)
    requires
        old(timers).wf(),
    ensures
        final(timers).wf(),
        final(timers)@ == spec_set_time(old(timers)@, name@, frames),
{
    timers.set_time(name, frames);
}

/// The frames left before timer `name` fires.
pub fn timer_stage(timers: &Timers, name: &str) -> (r: u32)
    requires
        timers.wf(),
    ensures
        r == spec_stage(timers@, name@),
{
    timers.stage(name)
}

/// The frames that timer `name` has run since it was started.
pub fn timer_rstage(timers: &Timers, name: &str) -> (r: u32)
    requires
        timers.wf(),
        timers@.contains_key(name@) ==> timers@[name@].time <= timers@[name@].count,
    ensures
        r == (if timers@.contains_key(name@) {
            timers@[name@].count - timers@[name@].time
        } else {
            0
        }),
{
    timers.rstage(name)
}

/// The data attached to timer `name`.
pub fn timer_exdata(timers: &Timers, name: &str) -> (r: Option<Vec<u8>>)
    requires
        timers.wf(),
    ensures
        r is None <==> !timers@.contains_key(name@),
        r matches Some(d) ==> d@ == timers@[name@].exdata,
{
    timers.exdata(name)
}

/// Starts timer `name` with `exdata` attached.
pub fn timer_fire(timers: &mut Timers, name: &str, exdata: Vec<u8>)
    requires
        old(timers).wf(),
    ensures
        final(timers).wf(),
        final(timers)@ == spec_fire(old(timers)@, name@, exdata@),
{
    timers.fire(name, exdata);
}

/// Stops timer `name`, emitting its event unless `nall`.
pub fn timer_cancel(timers: &mut Timers, ec: &mut EventCenter, name: &str, nall: bool)
    requires
        old(timers).wf(),
        old(ec).wf(),
    ensures
        final(timers).wf(),
        final(ec).wf(),
        final(timers)@ == spec_cancel(old(timers)@, name@),
        final(ec)@ == (if old(timers)@.contains_key(name@) && !nall {
            spec_emit(old(ec)@, name@)
        } else {
            old(ec)@
        }),
{
    timers.cancel(name, nall, ec);
}

/// Advances all timers by one frame.
pub fn timer_update(timers: &mut Timers, ec: &mut EventCenter)
    requires
        old(timers).wf(),
        old(ec).wf(),
    ensures
        final(timers).wf(),
        final(ec).wf(),
        final(timers)@ == spec_timers_tick(old(timers)@),
        final(ec)@ == spec_emit_all(old(ec)@, expiring(old(timers)@)),
{
    timers.update(ec);
}

} // verus!
