use vstd::prelude::*;

verus! {

/// How a path ended.
#[derive(Clone, Copy, Debug, PartialEq, Eq, Structural)]
pub enum Terminal {
    /// The bounce budget ran out: the path contributes black.
    Exhausted,
    /// The ray left the scene: the path picks up the sky colour.
    Sky,
    /// A surface swallowed the ray: the path contributes black.
    Absorbed,
}

/// What the scene did with the ray that a path is following.
#[derive(Clone, Copy, Debug, PartialEq, Eq, Structural)]
pub enum Event {
    /// No surface lies ahead of the ray.
    Missed,
    /// The nearest surface absorbed the ray.
    Absorbed,
    /// The nearest surface scattered the ray into a new one, with an attenuation.
    Scattered,
}

/// What the caller has to do next for a path.
#[derive(Clone, Copy, Debug, PartialEq, Eq, Structural)]
pub enum Action {
    /// Intersect the current ray with the scene and report the event.
    Probe,
    /// The path is over: its colour is the product of the attenuations
    /// gathered so far with the colour of this terminal.
    Stop(Terminal),
}

/// The end of a path allowed `depth` bounces whose successive rays met
/// `events`: the number of attenuations it gathers and how it ends, or `None`
/// while it needs more events than `events` holds.
pub open spec fn path_end(depth: nat, events: Seq<Event>) -> Option<(nat, Terminal)>
    decreases depth,
{
    if depth == 0 {
        Some((0, Terminal::Exhausted))
    } else if events.len() == 0 {
        None
    } else {
        match events[0] {
            Event::Missed => Some((0, Terminal::Sky)),
            Event::Absorbed => Some((0, Terminal::Absorbed)),
            Event::Scattered => match path_end((depth - 1) as nat, events.drop_first()) {
                Some((n, t)) => Some((n + 1, t)),
                None => None,
            },
        }
    }
}

/// Follows one path of the integrator: it decides, from the events that the
/// caller reports, when the path goes on and how it ends.
pub struct PathTracer {
    max_depth: usize,
    depth_left: usize,
    bounces: usize,
    end: Option<Terminal>,
    events: Ghost<Seq<Event>>,
}

impl PathTracer {
    /// The bounce budget that the path was started with.
    pub closed spec fn max_depth(&self) -> nat {
        self.max_depth as nat
    }

    /// The events reported so far, in order.
    pub closed spec fn events(&self) -> Seq<Event> {
        self.events@
    }

    /// The counters agree with the events: every bounce so far scattered, and
    /// the path is open exactly while `path_end` asks for more events.
    pub closed spec fn wf(&self) -> bool {
        &&& self.depth_left + self.bounces == self.max_depth
        &&& forall|i: int| 0 <= i < self.bounces ==> self.events@[i] == Event::Scattered
        &&& match self.end {
            None => {
                &&& self.depth_left > 0
                &&& self.events@.len() == self.bounces
                &&& path_end(self.max_depth as nat, self.events@) == None::<(nat, Terminal)>
            },
            Some(t) => {
                &&& self.events@.len() == self.bounces + if t == Terminal::Exhausted { 0nat } else { 1nat }
                &&& path_end(self.max_depth as nat, self.events@) == Some((self.bounces as nat, t))
            },
        }
    }

    /// Starts a path that may bounce `max_depth` times.
    pub fn new(max_depth: usize) -> (r: PathTracer)
        ensures
            r.wf(),
            r.max_depth() == max_depth,
            r.events() == Seq::<Event>::empty(),
    {
        let end = if max_depth == 0 { Some(Terminal::Exhausted) } else { None };
        PathTracer { max_depth, depth_left: max_depth, bounces: 0, end, events: Ghost(Seq::empty()) }
    }

    /// What to do next: probe the scene while the path is open, or stop with
    /// the terminal that `path_end` gives for the events so far.
    pub fn action(&self) -> (r: Action)
        requires
            self.wf(),
        ensures
            path_end(self.max_depth(), self.events()) == None::<(nat, Terminal)> <==> r == Action::Probe,
            forall|n: nat, t: Terminal|
                path_end(self.max_depth(), self.events()) == Some((n, t)) ==> r == Action::Stop(t),
    {
        match self.end {
            None => Action::Probe,
            Some(t) => Action::Stop(t),
        }
    }

    /// The number of attenuations gathered so far; once the path has ended,
    /// the number that `path_end` gives.
    pub fn bounces(&self) -> (r: usize)
        requires
            self.wf(),
        ensures
            r <= self.max_depth(),
            forall|n: nat, t: Terminal|
                path_end(self.max_depth(), self.events()) == Some((n, t)) ==> r == n,
    {
        self.bounces
    }

    /// Reports what the scene did with the current ray of an open path.
    pub fn record(&mut self, event: Event)
        requires
            old(self).wf(),
            path_end(old(self).max_depth(), old(self).events()) == None::<(nat, Terminal)>,
        ensures
            final(self).wf(),
            final(self).max_depth() == old(self).max_depth(),
            final(self).events() == old(self).events().push(event),
    {
        proof {
            lemma_path_end_extend(self.max_depth as nat, self.events@, event);
        }
        self.events = Ghost(self.events@.push(event));
        match event {
            Event::Missed => {
                self.end = Some(Terminal::Sky);
            },
            Event::Absorbed => {
                self.end = Some(Terminal::Absorbed);
            },
            Event::Scattered => {
                self.depth_left = self.depth_left - 1;
                self.bounces = self.bounces + 1;
                if self.depth_left == 0 {
                    self.end = Some(Terminal::Exhausted);
                }
            },
        }
    }
}

/// On a prefix of scattering events shorter than the budget the path is still
/// open, and one more event decides as the first unscattered one does.
proof fn lemma_path_end_extend(depth: nat, events: Seq<Event>, e: Event)
    requires
        events.len() < depth,
        forall|i: int| 0 <= i < events.len() ==> events[i] == Event::Scattered,
    ensures
        path_end(depth, events) == None::<(nat, Terminal)>,
        path_end(depth, events.push(e)) == if e == Event::Missed {
            Some((events.len(), Terminal::Sky))
        } else if e == Event::Absorbed {
            Some((events.len(), Terminal::Absorbed))
        } else if events.len() + 1 == depth {
            Some((depth, Terminal::Exhausted))
        } else {
            None
        },
    decreases depth,
{
    let pushed = events.push(e);
    if events.len() > 0 {
        assert(events[0] == Event::Scattered);
        assert(pushed[0] == Event::Scattered);
        let rest = events.drop_first();
        assert(pushed.drop_first() =~= rest.push(e));
        lemma_path_end_extend((depth - 1) as nat, rest, e);
        assert(path_end(depth, events) == None::<(nat, Terminal)>);
    } else {
        assert(pushed[0] == e);
        assert(pushed.drop_first() =~= Seq::<Event>::empty());
        if e == Event::Scattered {
            assert(path_end((depth - 1) as nat, Seq::<Event>::empty()) == if depth == 1 {
                Some((0nat, Terminal::Exhausted))
            } else {
                None
            });
        }
    }
}

/// A path with no bounce budget ends exhausted, with no attenuation, whatever
/// the scene would have done: its colour is black.
pub proof fn lemma_zero_depth_is_black(events: Seq<Event>)
    ensures
        path_end(0, events) == Some((0nat, Terminal::Exhausted)),
{
}

/// A path whose first ray meets nothing ends at the sky at once, with no
/// attenuation: its colour is exactly the sky colour of that ray.
pub proof fn lemma_first_miss_is_sky(depth: nat, events: Seq<Event>)
    requires
        depth > 0,
        events.len() > 0,
        events[0] == Event::Missed,
    ensures
        path_end(depth, events) == Some((0nat, Terminal::Sky)),
{
}

/// A path never gathers more attenuations than its budget or its events, and
/// it is exhausted exactly when every bounce of the budget was spent.
pub proof fn lemma_bounces_within_budget(depth: nat, events: Seq<Event>)
    ensures
        match path_end(depth, events) {
            Some((n, t)) => {
                &&& n <= depth
                &&& n <= events.len()
                &&& (t == Terminal::Exhausted <==> n == depth)
            },
            None => true,
        },
    decreases depth,
{
    if depth > 0 && events.len() > 0 && events[0] == Event::Scattered {
        lemma_bounces_within_budget((depth - 1) as nat, events.drop_first());
    }
}

} // verus!
