use vstd::prelude::*;
use crate::text::starts_with;

verus! {

/// Names one of the sinks that a dispatch table holds.
#[derive(Clone, Copy, Debug, PartialEq, Eq, Structural)]
pub enum SinkId {
    /// The main sink.
    Main,
    /// The sink of the module route at this position of the table.
    Module(usize),
}

/// Whether route `i` is the first whose prefix `target` begins with.
pub open spec fn is_first_match(prefixes: Seq<Seq<char>>, target: Seq<char>, i: int) -> bool {
    &&& 0 <= i < prefixes.len()
    &&& prefixes[i].is_prefix_of(target)
    &&& forall|j: int| 0 <= j < i ==> !(#[trigger] prefixes[j]).is_prefix_of(target)
}

/// The position of the first route whose prefix `target` begins with.
pub open spec fn first_match(prefixes: Seq<Seq<char>>, target: Seq<char>) -> Option<int> {
    if exists|i: int| is_first_match(prefixes, target, i) {
        Some(choose|i: int| is_first_match(prefixes, target, i))
    } else {
        None
    }
}

/// The sinks that receive a record with this target, in the order of
/// delivery: the module sink of the first matching route, if any, then the
/// main sink.
pub open spec fn log_plan(prefixes: Seq<Seq<char>>, target: Seq<char>) -> Seq<SinkId> {
    match first_match(prefixes, target) {
        Some(i) => seq![SinkId::Module(i as usize), SinkId::Main],
        None => seq![SinkId::Main],
    }
}

/// The sinks that a flush reaches, in order: the main sink, then the module
/// sinks as the table lists them.
pub open spec fn flush_plan(modules: nat) -> Seq<SinkId> {
    Seq::new(
        modules + 1,
        |k: int|
            if k == 0 {
                SinkId::Main
            } else {
                SinkId::Module((k - 1) as usize)
            },
    )
}

/// At most one route is the first to match.
pub proof fn lemma_first_match_unique(prefixes: Seq<Seq<char>>, target: Seq<char>, i: int, j: int)
    requires
        is_first_match(prefixes, target, i),
        is_first_match(prefixes, target, j),
    ensures
        i == j,
{
}

/// `first_match` is the route that is the first to match, and is `None`
/// exactly when no prefix matches.
pub proof fn lemma_first_match(prefixes: Seq<Seq<char>>, target: Seq<char>)
    ensures
        forall|i: int|
            is_first_match(prefixes, target, i) <==> first_match(prefixes, target) == Some(i),
        first_match(prefixes, target) is None <==> forall|j: int|
            0 <= j < prefixes.len() ==> !(#[trigger] prefixes[j]).is_prefix_of(target),
{
    assert forall|i: int| is_first_match(prefixes, target, i) implies first_match(prefixes, target)
        == Some(i) by {
        let c = choose|c: int| is_first_match(prefixes, target, c);
        lemma_first_match_unique(prefixes, target, i, c);
    }
    if forall|j: int| 0 <= j < prefixes.len() ==> !(#[trigger] prefixes[j]).is_prefix_of(target) {
        assert(first_match(prefixes, target) is None);
    } else {
        lemma_some_route_is_first(prefixes, target, prefixes.len() as int);
    }
}

/// Among the first `n` routes, if one matches then one is the first to match.
proof fn lemma_some_route_is_first(prefixes: Seq<Seq<char>>, target: Seq<char>, n: int)
    requires
        0 <= n <= prefixes.len(),
    ensures
        (exists|j: int| 0 <= j < n && (#[trigger] prefixes[j]).is_prefix_of(target)) ==> exists|
            i: int,
        | is_first_match(prefixes, target, i),
    decreases n,
{
    if n > 0 {
        lemma_some_route_is_first(prefixes, target, n - 1);
        if !exists|j: int| 0 <= j < n - 1 && (#[trigger] prefixes[j]).is_prefix_of(target) {
            if prefixes[n - 1].is_prefix_of(target) {
                assert(is_first_match(prefixes, target, n - 1));
            }
        }
    }
}

/// How many times `plan` names `sink`.
pub open spec fn deliveries(plan: Seq<SinkId>, sink: SinkId) -> nat {
    plan.filter(|id: SinkId| id == sink).len()
}

/// A record is delivered to the main sink exactly once, and last. A module
/// sink receives it once if its route is the first whose prefix the target
/// begins with, and not at all otherwise. Nothing else is named.
pub proof fn lemma_log_plan(prefixes: Seq<Seq<char>>, target: Seq<char>)
    requires
        prefixes.len() <= usize::MAX,
    ensures
        deliveries(log_plan(prefixes, target), SinkId::Main) == 1,
        log_plan(prefixes, target).last() == SinkId::Main,
        forall|i: int|
            0 <= i < prefixes.len() ==> #[trigger] deliveries(
                log_plan(prefixes, target),
                SinkId::Module(i as usize),
            ) == if is_first_match(prefixes, target, i) {
                1nat
            } else {
                0nat
            },
        forall|i: usize|
            i >= prefixes.len() ==> #[trigger] deliveries(
                log_plan(prefixes, target),
                SinkId::Module(i),
            ) == 0,
{
    reveal_with_fuel(Seq::filter, 3);
    lemma_first_match(prefixes, target);
    let plan = log_plan(prefixes, target);
    match first_match(prefixes, target) {
        Some(first) => {
            assert(is_first_match(prefixes, target, first));
            assert(plan.drop_last() =~= seq![SinkId::Module(first as usize)]);
            assert(plan.drop_last().drop_last() =~= Seq::<SinkId>::empty());
        },
        None => {
            assert(plan.drop_last() =~= Seq::<SinkId>::empty());
        },
    }
}

/// `verdict` is an answer that the logger may give when asked whether a
/// record is enabled, where `accepts` says which records a sink accepts.
pub open spec fn enabled_verdict<S, F: Fn(&S) -> bool>(
    table: SfoLoggerView<S>,
    accepts: F,
    verdict: bool,
) -> bool {
    call_ensures(accepts, (&table.main_logger,), verdict)
}

/// Whether a record is enabled depends on the main sink alone: two tables
/// with the same main sink give the same answers, whatever their routes are
/// and whatever the sinks of the routes would accept.
pub proof fn lemma_enabled_ignores_routes<S, F: Fn(&S) -> bool>(
    table: SfoLoggerView<S>,
    other: SfoLoggerView<S>,
    accepts: F,
    verdict: bool,
)
    requires
        table.main_logger == other.main_logger,
    ensures
        enabled_verdict(table, accepts, verdict) == enabled_verdict(other, accepts, verdict),
{
}

/// A flush of a table with `modules` routes makes `modules + 1` flushes: of
/// the main sink first, then of the module sinks in the order of the routes.
pub proof fn lemma_flush_plan(modules: nat)
    ensures
        flush_plan(modules).len() == modules + 1,
        flush_plan(modules)[0] == SinkId::Main,
        forall|k: int|
            1 <= k <= modules ==> #[trigger] flush_plan(modules)[k] == SinkId::Module(
                (k - 1) as usize,
            ),
{
}

/// A dispatch table, as mathematical values.
pub struct SfoLoggerView<S> {
    pub main_logger: S,
    pub module_loggers: Seq<(Seq<char>, S)>,
}

impl<S> SfoLoggerView<S> {
    /// The prefixes of the module routes, in the order of the table.
    pub open spec fn prefixes(self) -> Seq<Seq<char>> {
        Seq::new(self.module_loggers.len(), |i: int| self.module_loggers[i].0)
    }

    /// Every sink of the table: the main sink, then those of the routes.
    pub open spec fn sinks(self) -> Seq<S> {
        seq![self.main_logger] + Seq::new(
            self.module_loggers.len(),
            |i: int| self.module_loggers[i].1,
        )
    }

    /// The sink that `id` names, if the table holds it.
    pub open spec fn sink(self, id: SinkId) -> Option<S> {
        match id {
            SinkId::Main => Some(self.main_logger),
            SinkId::Module(i) => if i < self.module_loggers.len() {
                Some(self.module_loggers[i as int].1)
            } else {
                None
            },
        }
    }
}

/// The dispatch table of the process-wide logger: the main sink and the
/// module routes, each a target prefix with its sink. It is never changed
/// once made. The order of the routes matters: the first matching one wins.
pub struct SfoLogger<S> {
    main_logger: S,
    module_loggers: Vec<(String, S)>,
}

/// The routes of a table, each with its prefix as a mathematical value.
pub open spec fn routes<S>(module_loggers: Seq<(String, S)>) -> Seq<(Seq<char>, S)> {
    Seq::new(module_loggers.len(), |i: int| (module_loggers[i].0@, module_loggers[i].1))
}

impl<S> View for SfoLogger<S> {
    type V = SfoLoggerView<S>;

    closed spec fn view(&self) -> SfoLoggerView<S> {
        SfoLoggerView {
            main_logger: self.main_logger,
            module_loggers: routes(self.module_loggers@),
        }
    }
}

impl<S> SfoLogger<S> {
    /// Makes the table of a main sink and the module routes in their order.
    pub fn new(main_logger: S, module_loggers: Vec<(String, S)>) -> (table: Self)
        ensures
            table@ == (SfoLoggerView { main_logger, module_loggers: routes(module_loggers@) }),
    {
        SfoLogger { main_logger, module_loggers }
    }

    /// The number of module routes.
    pub fn module_count(&self) -> (n: usize)
        ensures
            n == self@.module_loggers.len(),
    {
        self.module_loggers.len()
    }

    /// The sink that `id` names, or `None` where the table has no such route.
    pub fn sink(&self, id: SinkId) -> (sink: Option<&S>)
        ensures
            match sink {
                Some(found) => self@.sink(id) == Some(*found),
                None => self@.sink(id) is None,
            },
    {
        match id {
            SinkId::Main => Some(&self.main_logger),
            SinkId::Module(i) => {
                if i < self.module_loggers.len() {
                    Some(&self.module_loggers[i].1)
                } else {
                    None
                }
            },
        }
    }

    /// The position of the first route whose prefix `target` begins with.
    pub fn route(&self, target: &str) -> (found: Option<usize>)
        ensures
            match found {
                Some(i) => first_match(self@.prefixes(), target@) == Some(i as int),
                None => first_match(self@.prefixes(), target@) is None,
            },
    {
        let mut i: usize = 0;
        while i < self.module_loggers.len()
            invariant
                0 <= i <= self.module_loggers@.len(),
                forall|j: int| 0 <= j < i ==> !(#[trigger] self@.prefixes()[j]).is_prefix_of(target@),
            decreases self.module_loggers@.len() - i,
        {
            if starts_with(target, self.module_loggers[i].0.as_str()) {
                proof {
                    assert(is_first_match(self@.prefixes(), target@, i as int));
                    lemma_first_match(self@.prefixes(), target@);
                }
                return Some(i);
            }
            i = i + 1;
        }
        proof {
            lemma_first_match(self@.prefixes(), target@);
        }
        None
    }

    /// Whether a record is enabled: what `accepts` answers for the main
    /// sink. No module sink is asked, so a route cannot make the logger
    /// accept a record that the main sink rejects, however permissive the
    /// sink of the route is.
    pub fn enabled<F>(&self, accepts: F) -> (verdict: bool) where F: Fn(&S) -> bool
        requires
            call_requires(accepts, (&self@.main_logger,)),
        ensures
            enabled_verdict(self@, accepts, verdict),
    {
        accepts(&self.main_logger)
    }

    /// The sinks to hand a record with this target to, in this order: the
    /// module sink of the first route whose prefix the target begins with, if
    /// there is one, and then the main sink, always.
    pub fn log(&self, target: &str) -> (plan: Vec<SinkId>)
        ensures
            plan@ == log_plan(self@.prefixes(), target@),
    {
        let mut plan: Vec<SinkId> = Vec::new();
        match self.route(target) {
            Some(i) => {
                plan.push(SinkId::Module(i));
            },
            None => {},
        }
        plan.push(SinkId::Main);
        plan
    }

    /// The sinks to flush, in this order: one more than there are routes.
    /// A flush is best effort: every sink of the plan is flushed whatever
    /// became of the flushes before it, and no failure is collected.
    pub fn flush(&self) -> (plan: Vec<SinkId>)
        ensures
            plan@ == flush_plan(self@.module_loggers.len()),
    {
        let mut plan: Vec<SinkId> = Vec::new();
        plan.push(SinkId::Main);
        let mut i: usize = 0;
        while i < self.module_loggers.len()
            invariant
                0 <= i <= self.module_loggers@.len(),
                plan@ == flush_plan(i as nat),
            decreases self.module_loggers@.len() - i,
        {
            plan.push(SinkId::Module(i));
            i = i + 1;
        }
        plan
    }
}

} // verus!
