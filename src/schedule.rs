use vstd::prelude::*;

use crate::route::Route;

verus! {

/// The two kinds of per-route system.
#[derive(Clone, Copy, Debug, PartialEq, Eq, Structural)]
pub enum Hook {
    /// Builds a newly activated route's tree; runs before layout computation.
    Builder,
    /// Interprets click events; runs only in frames that have click events.
    Handler,
}

/// One system installed into the per-frame update schedule.
#[derive(Clone, Copy, Debug, PartialEq, Eq, Structural)]
pub struct SystemEntry {
    pub route: Route,
    pub hook: Hook,
}

/// Why a registration was refused.
#[derive(Clone, Copy, Debug, PartialEq, Eq, Structural)]
pub enum ScheduleError {
    /// The route already has a builder.
    DuplicateBuilder(Route),
}

/// The per-frame update schedule, as the ordered list of installed systems.
pub struct Schedule {
    pub entries: Vec<SystemEntry>,
}

pub open spec fn builder_entry(route: Route) -> SystemEntry {
    SystemEntry { route, hook: Hook::Builder }
}

pub open spec fn handler_entry(route: Route) -> SystemEntry {
    SystemEntry { route, hook: Hook::Handler }
}

pub open spec fn has_builder(es: Seq<SystemEntry>, route: Route) -> bool {
    exists|k: int| 0 <= k < es.len() && #[trigger] es[k] == builder_entry(route)
}

/// No route has two builders.
pub open spec fn builders_unique(es: Seq<SystemEntry>) -> bool {
    forall|i: int, j: int|
        0 <= i < es.len() && 0 <= j < es.len() && (#[trigger] es[i]).hook == Hook::Builder && (#[trigger] es[j])
            == es[i] ==> i == j
}

/// The systems of every route, in the order the routes are registered.
pub open spec fn route_systems() -> Seq<SystemEntry> {
    seq![
        builder_entry(Route::CharacterCreator),
        builder_entry(Route::Intro),
        builder_entry(Route::LoadGame),
        builder_entry(Route::MainMenu),
        handler_entry(Route::MainMenu),
        builder_entry(Route::Settings),
    ]
}

impl Schedule {
    pub open spec fn wf(&self) -> bool {
        builders_unique(self.entries@)
    }

    pub fn new() -> (s: Schedule)
        ensures
            s.wf(),
            s.entries@.len() == 0,
    {
        Schedule { entries: Vec::new() }
    }

    pub fn has_builder(&self, route: Route) -> (b: bool)
        ensures
            b == has_builder(self.entries@, route),
    {
        let mut k: usize = 0;
        while k < self.entries.len()
            invariant
                k <= self.entries@.len(),
                forall|m: int| 0 <= m < k ==> self.entries@[m] != builder_entry(route),
            decreases self.entries@.len() - k,
        {
            if self.entries[k].hook == Hook::Builder && self.entries[k].route == route {
                return true;
            }
            k += 1;
        }
        false
    }

    /// Installs the builder of `route`, unless it has one already.
    pub fn add_builder(&mut self, route: Route) -> (r: Result<(), ScheduleError>)
        requires
            old(self).wf(),
        ensures
            final(self).wf(),
            match r {
                Ok(()) => !has_builder(old(self).entries@, route) && final(self).entries@ == old(
                    self,
                ).entries@.push(builder_entry(route)),
                Err(e) => e == ScheduleError::DuplicateBuilder(route) && has_builder(old(self).entries@, route)
                    && final(self).entries@ == old(self).entries@,
            },
    {
        if self.has_builder(route) {
            return Err(ScheduleError::DuplicateBuilder(route));
        }
        let ghost before = self.entries@;
        self.entries.push(SystemEntry { route, hook: Hook::Builder });
        assert forall|i: int, j: int|
            0 <= i < self.entries@.len() && 0 <= j < self.entries@.len() && (#[trigger] self.entries@[i]).hook
                == Hook::Builder && (#[trigger] self.entries@[j]) == self.entries@[i] implies i == j by {
            if i < before.len() && j == before.len() {
                assert(before[i] == builder_entry(route));
            } else if j < before.len() && i == before.len() {
                assert(before[j] == builder_entry(route));
            }
        }
        Ok(())
    }

    /// Installs the click handler of `route`.
    pub fn add_handler(&mut self, route: Route)
        requires
            old(self).wf(),
        ensures
            final(self).wf(),
            final(self).entries@ == old(self).entries@.push(handler_entry(route)),
    {
        self.entries.push(SystemEntry { route, hook: Hook::Handler });
    }
}

proof fn lemma_push_keeps_absent(es: Seq<SystemEntry>, e: SystemEntry, r: Route)
    requires
        !has_builder(es, r),
        e != builder_entry(r),
    ensures
        !has_builder(es.push(e), r),
{
    assert forall|k: int| 0 <= k < es.push(e).len() implies es.push(e)[k] != builder_entry(r) by {
        if k < es.len() {
            assert(es.push(e)[k] == es[k]);
        }
    }
}

/// Registers the main menu's builder and click handler.
pub struct MainMenuRoutePlugin;

impl MainMenuRoutePlugin {
    pub fn build(&self, s: &mut Schedule) -> (r: Result<(), ScheduleError>)
        requires
            old(s).wf(),
        ensures
            final(s).wf(),
            match r {
                Ok(()) => !has_builder(old(s).entries@, Route::MainMenu) && final(s).entries@ == old(
                    s,
                ).entries@.push(builder_entry(Route::MainMenu)).push(handler_entry(Route::MainMenu)),
                Err(e) => e == ScheduleError::DuplicateBuilder(Route::MainMenu) && has_builder(
                    old(s).entries@,
                    Route::MainMenu,
                ) && final(s).entries@ == old(s).entries@,
            },
    {
        s.add_builder(Route::MainMenu)?;
        s.add_handler(Route::MainMenu);
        Ok(())
    }
}

/// Registers the systems of every route.
pub struct RoutePlugin;

impl RoutePlugin {
    /// Installs every route's systems after those already in the schedule,
    /// which must hold no route builder yet.
    pub fn build(&self, s: &mut Schedule)
        requires
            old(s).wf(),
            forall|r: Route| !has_builder(old(s).entries@, r),
        ensures
            final(s).wf(),
            final(s).entries@ == old(s).entries@ + route_systems(),
    {
        let ghost start = s.entries@;
        let _ = s.add_builder(Route::CharacterCreator);
        proof {
            lemma_push_keeps_absent(start, builder_entry(Route::CharacterCreator), Route::Intro);
        }
        let ghost e1 = s.entries@;
        let _ = s.add_builder(Route::Intro);
        proof {
            lemma_push_keeps_absent(start, builder_entry(Route::CharacterCreator), Route::LoadGame);
            lemma_push_keeps_absent(e1, builder_entry(Route::Intro), Route::LoadGame);
        }
        let ghost e2 = s.entries@;
        let _ = s.add_builder(Route::LoadGame);
        proof {
            lemma_push_keeps_absent(start, builder_entry(Route::CharacterCreator), Route::MainMenu);
            lemma_push_keeps_absent(e1, builder_entry(Route::Intro), Route::MainMenu);
            lemma_push_keeps_absent(e2, builder_entry(Route::LoadGame), Route::MainMenu);
            lemma_push_keeps_absent(start, builder_entry(Route::CharacterCreator), Route::Settings);
            lemma_push_keeps_absent(e1, builder_entry(Route::Intro), Route::Settings);
            lemma_push_keeps_absent(e2, builder_entry(Route::LoadGame), Route::Settings);
        }
        let ghost e3 = s.entries@;
        let _ = MainMenuRoutePlugin.build(s);
        proof {
            lemma_push_keeps_absent(e3, builder_entry(Route::MainMenu), Route::Settings);
            lemma_push_keeps_absent(e3.push(builder_entry(Route::MainMenu)), handler_entry(Route::MainMenu), Route::Settings);
        }
        let _ = s.add_builder(Route::Settings);
        assert(s.entries@ =~= start + route_systems());
    }
}

} // verus!
