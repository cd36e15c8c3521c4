use vstd::prelude::*;

use crate::level::{eq_ignoring_case, ordinal, parse_level, Level};

verus! {

/// The catch-all context, whose level is the default threshold.
pub open spec fn wildcard() -> Seq<char> {
    seq!['*']
}

/// The threshold that the configuration pairs give a context: the last pair for
/// it whose level name parses wins; pairs whose name does not parse are ignored.
pub open spec fn configured_level(config: Seq<(String, String)>, context: Seq<char>) -> Option<
    Level,
>
    decreases config.len(),
{
    if config.len() == 0 {
        None
    } else {
        let last = config.last();
        if last.0@ == context && parse_level(last.1@) is Some {
            parse_level(last.1@)
        } else {
            configured_level(config.drop_last(), context)
        }
    }
}

/// The table that configuration pairs describe: context to minimum level.
pub open spec fn config_table(config: Seq<(String, String)>) -> Map<Seq<char>, Level> {
    Map::new(
        |k: Seq<char>| configured_level(config, k) is Some,
        |k: Seq<char>| configured_level(config, k)->0,
    )
}

/// The pairs that a configuration source yields; an unavailable source yields none.
pub open spec fn source_pairs(source: Option<Vec<(String, String)>>) -> Seq<(String, String)> {
    match source {
        Some(v) => v@,
        None => Seq::empty(),
    }
}

/// What the filter state holds, abstractly.
pub struct FilterModel {
    pub initialized: bool,
    pub table: Option<Map<Seq<char>, Level>>,
    pub default_level: Option<Level>,
}

/// The state's invariant: a table exists exactly once initialized, and the
/// default level is the table's `*` entry.
pub open spec fn well_formed(m: FilterModel) -> bool {
    &&& m.initialized <==> m.table is Some
    &&& m.default_level == (if m.table is Some && m.table->0.contains_key(wildcard()) {
        Some(m.table->0[wildcard()])
    } else {
        None::<Level>
    })
}

/// The state right after initialization from the given configuration pairs.
pub open spec fn initialized_from(config: Seq<(String, String)>) -> FilterModel {
    FilterModel {
        initialized: true,
        table: Some(config_table(config)),
        default_level: configured_level(config, wildcard()),
    }
}

/// Initialization: a no-op once initialized, otherwise the table of the source.
pub open spec fn after_initialize(m: FilterModel, config: Seq<(String, String)>) -> FilterModel {
    if m.initialized {
        m
    } else {
        initialized_from(config)
    }
}

/// The state after initializing once from each source in turn.
pub open spec fn after_initialize_all(m: FilterModel, sources: Seq<Seq<(String, String)>>) -> FilterModel
    decreases sources.len(),
{
    if sources.len() == 0 {
        m
    } else {
        after_initialize_all(after_initialize(m, sources[0]), sources.drop_first())
    }
}

/// The minimum level for a context: its table entry, else the default level,
/// else `Info`.
pub open spec fn threshold(m: FilterModel, context: Seq<char>) -> Level {
    if m.table is Some && m.table->0.contains_key(context) {
        m.table->0[context]
    } else {
        match m.default_level {
            Some(d) => d,
            None => Level::Info,
        }
    }
}

/// Whether an event of `level` in `context` passes the filter.
pub open spec fn decision(m: FilterModel, level: Level, context: Seq<char>) -> bool {
    ordinal(threshold(m, context)) <= ordinal(level)
}

/// The entry for `context` in a table held as a list; later entries win.
pub open spec fn entry_for(entries: Seq<(String, Level)>, context: Seq<char>) -> Option<Level>
    decreases entries.len(),
{
    if entries.len() == 0 {
        None
    } else if entries.last().0@ == context {
        Some(entries.last().1)
    } else {
        entry_for(entries.drop_last(), context)
    }
}

/// Process-wide filter state: built once from configuration, then read-only.
pub struct Filter {
    initialized: bool,
    levels: Option<Vec<(String, Level)>>,
    default_level: Option<Level>,
}

impl Filter {
    #[verifier::type_invariant]
    spec fn inv(self) -> bool {
        well_formed(self@)
    }
}

impl View for Filter {
    type V = FilterModel;

    closed spec fn view(&self) -> FilterModel {
        FilterModel {
            initialized: self.initialized,
            table: match self.levels {
                Some(v) => Some(
                    Map::new(
                        |k: Seq<char>| entry_for(v@, k) is Some,
                        |k: Seq<char>| entry_for(v@, k)->0,
                    ),
                ),
                None => None,
            },
            default_level: self.default_level,
        }
    }
}

fn entry_of(entries: &Vec<(String, Level)>, context: &String) -> (r: Option<Level>)
    ensures
        r == entry_for(entries@, context@),
{
    let mut i: usize = entries.len();
    assert(entries@.subrange(0, i as int) =~= entries@);
    while i > 0
        invariant
            i <= entries@.len(),
            entry_for(entries@, context@) == entry_for(entries@.subrange(0, i as int), context@),
        decreases i,
    {
        let prefix = Ghost(entries@.subrange(0, i as int));
        assert(prefix@.drop_last() =~= entries@.subrange(0, i - 1));
        if entries[i - 1].0 == *context {
            return Some(entries[i - 1].1);
        }
        i = i - 1;
    }
    None
}

fn wildcard_string() -> (r: String)
    ensures
        r@ == wildcard(),
{
    proof {
        reveal_strlit("*");
    }
    "*".to_owned()
}

impl Filter {
    /// A filter that has not read its configuration yet.
    pub fn new() -> (r: Filter)
        ensures
            r@ == (FilterModel { initialized: false, table: None, default_level: None }),
            well_formed(r@),
    {
        Filter { initialized: false, levels: None, default_level: None }
    }

    /// Whether the configuration has been read.
    pub fn is_initialized(&self) -> (r: bool)
        ensures
            r == self@.initialized,
    {
        self.initialized
    }

    /// Parses a level name, ignoring ASCII case; anything else is no match.
    pub fn str_to_level(level: String) -> (r: Option<Level>)
        ensures
            r == parse_level(level@),
    {
        let s = level.as_str();
        if eq_ignoring_case(s, Level::Trace.name()) {
            Some(Level::Trace)
        } else if eq_ignoring_case(s, Level::Debug.name()) {
            Some(Level::Debug)
        } else if eq_ignoring_case(s, Level::Info.name()) {
            Some(Level::Info)
        } else if eq_ignoring_case(s, Level::Warn.name()) {
            Some(Level::Warn)
        } else if eq_ignoring_case(s, Level::Error.name()) {
            Some(Level::Error)
        } else if eq_ignoring_case(s, Level::Critical.name()) {
            Some(Level::Critical)
        } else {
            None
        }
    }

    /// The position of a level in the severity order, `Trace` first.
    pub fn level_ordinal(level: Level) -> (r: u8)
        ensures
            r == ordinal(level),
    {
        match level {
            Level::Trace => 0,
            Level::Debug => 1,
            Level::Info => 2,
            Level::Warn => 3,
            Level::Error => 4,
            Level::Critical => 5,
        }
    }

    /// Reads the configuration pairs once: on the first call builds the table
    /// (pairs whose level name does not parse are dropped, the last pair for a
    /// context wins) and the default level from the `*` entry; later calls
    /// change nothing. `None` stands for an unavailable source.
    pub fn initialize(&mut self, source: Option<Vec<(String, String)>>)
        ensures
            final(self)@ == after_initialize(old(self)@, source_pairs(source)),
            well_formed(final(self)@),
    {
        proof {
            use_type_invariant(&*self);
        }
        if self.initialized {
            return;
        }
        let config: Vec<(String, String)> = match source {
            Some(v) => v,
            None => Vec::new(),
        };
        let mut levels: Vec<(String, Level)> = Vec::new();
        let mut i: usize = 0;
        while i < config.len()
            invariant
                i <= config@.len(),
                config@ == source_pairs(source),
                forall|k: Seq<char>|
                    #[trigger] entry_for(levels@, k) == configured_level(
                        config@.subrange(0, i as int),
                        k,
                    ),
            decreases config@.len() - i,
        {
            let ghost before = levels@;
            let parsed = Filter::str_to_level(config[i].1.clone());
            match parsed {
                Some(level) => {
                    levels.push((config[i].0.clone(), level));
                },
                None => {},
            }
            proof {
                let prefix = config@.subrange(0, i + 1);
                assert(prefix.drop_last() =~= config@.subrange(0, i as int));
                assert(prefix.last() == config@[i as int]);
                if parsed is Some {
                    assert(levels@.drop_last() =~= before);
                } else {
                    assert(levels@ =~= before);
                }
                assert forall|k: Seq<char>|
                    #[trigger] entry_for(levels@, k) == configured_level(prefix, k) by {
                    assert(entry_for(before, k) == configured_level(
                        config@.subrange(0, i as int),
                        k,
                    ));
                }
            }
            i = i + 1;
        }
        assert(config@.subrange(0, config@.len() as int) =~= config@);
        let star = wildcard_string();
        let default_level = entry_of(&levels, &star);
        *self = Filter { initialized: true, levels: Some(levels), default_level };
        assert(self@.table->0 =~= config_table(config@));
    }

    /// The minimum level for a context: its entry in the table, else the
    /// default level, else `Info`.
    pub fn level_for_context(&self, context: &str) -> (r: Level)
        ensures
            r == threshold(self@, context@),
    {
        let default_level = match self.default_level {
            Some(d) => d,
            None => Level::Info,
        };
        match &self.levels {
            Some(levels) => match entry_of(levels, &context.to_owned()) {
                Some(level) => level,
                None => default_level,
            },
            None => default_level,
        }
    }

    /// Whether an event of `level` in `context` passes: its level is at least
    /// the context's threshold. Decides from the state as it is, without
    /// reading configuration (an uninitialized filter holds every context to
    /// `Info`); `decide` initializes first. Defined for every level and every
    /// context.
    pub fn should_log(&self, level: Level, context: &str) -> (r: bool)
        ensures
            r == decision(self@, level, context@),
    {
        let filter_level = self.level_for_context(context);
        Filter::level_ordinal(filter_level) <= Filter::level_ordinal(level)
    }

    /// Handles one event: initializes from `source` if that has not happened
    /// yet, then decides whether the event goes on to the sink.
    pub fn decide(
        &mut self,
        level: Level,
        context: &str,
        source: Option<Vec<(String, String)>>,
    ) -> (r: bool)
        ensures
            final(self)@ == after_initialize(old(self)@, source_pairs(source)),
            final(self)@.initialized,
            well_formed(final(self)@),
            r == decision(final(self)@, level, context@),
    {
        self.initialize(source);
        self.should_log(level, context)
    }
}

/// Initialization happens once: any further initializations, from whatever
/// sources, leave the table and the default level of the first.
pub proof fn lemma_initialize_idempotent(
    m: FilterModel,
    first: Seq<(String, String)>,
    later: Seq<Seq<(String, String)>>,
)
    ensures
        after_initialize(m, first).initialized,
        after_initialize_all(after_initialize(m, first), later) == after_initialize(m, first),
{
    if m.initialized {
        lemma_initialized_stays(m, later);
    } else {
        lemma_initialized_stays(initialized_from(first), later);
    }
}

proof fn lemma_initialized_stays(m: FilterModel, sources: Seq<Seq<(String, String)>>)
    requires
        m.initialized,
    ensures
        after_initialize_all(m, sources) == m,
    decreases sources.len(),
{
    if sources.len() > 0 {
        lemma_initialized_stays(m, sources.drop_first());
    }
}

/// For a fixed context the decision is monotone in the level: exactly the
/// levels at or above the context's threshold pass.
pub proof fn lemma_threshold_monotone(m: FilterModel, context: Seq<char>, lower: Level, higher: Level)
    requires
        ordinal(lower) <= ordinal(higher),
    ensures
        decision(m, lower, context) ==> decision(m, higher, context),
        decision(m, lower, context) <==> ordinal(threshold(m, context)) <= ordinal(lower),
        decision(m, threshold(m, context), context),
{
}

/// A context without an entry of its own is decided as `*` is, and from the
/// level configured for `*`, or from `Info` where there is none.
pub proof fn lemma_default_fallback(config: Seq<(String, String)>, context: Seq<char>, level: Level)
    requires
        !config_table(config).contains_key(context),
    ensures
        decision(initialized_from(config), level, context) == decision(
            initialized_from(config),
            level,
            wildcard(),
        ),
        threshold(initialized_from(config), context) == (if config_table(config).contains_key(
            wildcard(),
        ) {
            config_table(config)[wildcard()]
        } else {
            Level::Info
        }),
{
}

} // verus!
