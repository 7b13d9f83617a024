//! Figures an observer derives from a snapshot: which events to list and how
//! they spread over time. Nothing here draws anything.

use vstd::prelude::*;
use vstd::string::*;
use crate::events::WorldEvent;
use crate::events::WorldEventKind;
use crate::nation::Nation;
use crate::observer::ObserverSnapshot;
use crate::text::append_fixed;
use crate::text::fixed_text;

verus! {

/// What the map shows.
#[derive(Clone, Copy, Debug, PartialEq, Eq, Structural)]
pub enum MapOverlay {
    Ownership,
    Climate,
    Conflict,
}

impl MapOverlay {
    pub open spec fn label_text(self) -> Seq<char> {
        match self {
            MapOverlay::Ownership => "Territory/Leader"@,
            MapOverlay::Climate => "Climate/Sea"@,
            MapOverlay::Conflict => "Conflict/Fatigue"@,
        }
    }

    pub open spec fn successor(self) -> MapOverlay {
        match self {
            MapOverlay::Ownership => MapOverlay::Climate,
            MapOverlay::Climate => MapOverlay::Conflict,
            MapOverlay::Conflict => MapOverlay::Ownership,
        }
    }

    pub fn label(&self) -> (r: &'static str)
        ensures
            r@ == self.label_text(),
    {
        match self {
            MapOverlay::Ownership => "Territory/Leader",
            MapOverlay::Climate => "Climate/Sea",
            MapOverlay::Conflict => "Conflict/Fatigue",
        }
    }

    pub fn next(self) -> (r: Self)
        ensures
            r == self.successor(),
    {
        match self {
            MapOverlay::Ownership => MapOverlay::Climate,
            MapOverlay::Climate => MapOverlay::Conflict,
            MapOverlay::Conflict => MapOverlay::Ownership,
        }
    }

    pub fn prev(self) -> (r: Self)
        ensures
            r.successor() == self,
    {
        match self {
            MapOverlay::Ownership => MapOverlay::Conflict,
            MapOverlay::Climate => MapOverlay::Ownership,
            MapOverlay::Conflict => MapOverlay::Climate,
        }
    }
}

/// Which events the log lists.
#[derive(Clone, Copy, Debug, PartialEq, Eq, Structural)]
pub enum LogFilter {
    All,
    War,
    TradeSocial,
    ScienceSpace,
    Diplomacy,
}

impl LogFilter {
    pub open spec fn label_text(self) -> Seq<char> {
        match self {
            LogFilter::All => "All"@,
            LogFilter::War => "War"@,
            LogFilter::TradeSocial => "Trade/Social"@,
            LogFilter::ScienceSpace => "Science/Space"@,
            LogFilter::Diplomacy => "Diplomacy"@,
        }
    }

    pub open spec fn successor(self) -> LogFilter {
        match self {
            LogFilter::All => LogFilter::War,
            LogFilter::War => LogFilter::TradeSocial,
            LogFilter::TradeSocial => LogFilter::ScienceSpace,
            LogFilter::ScienceSpace => LogFilter::Diplomacy,
            LogFilter::Diplomacy => LogFilter::All,
        }
    }

    /// Whether the filter lets an event of this kind through.
    pub open spec fn admits(self, kind: WorldEventKind) -> bool {
        match self {
            LogFilter::All => true,
            LogFilter::War => kind is Warfare,
            LogFilter::TradeSocial => kind is Trade || kind is Social,
            LogFilter::ScienceSpace => kind is ScienceProgress || kind is ScienceVictory
                || kind is InterstellarProgress || kind is InterstellarVictory,
            LogFilter::Diplomacy => kind is EraShift || kind is MacroShock || kind is Social,
        }
    }

    pub fn label(&self) -> (r: &'static str)
        ensures
            r@ == self.label_text(),
    {
        match self {
            LogFilter::All => "All",
            LogFilter::War => "War",
            LogFilter::TradeSocial => "Trade/Social",
            LogFilter::ScienceSpace => "Science/Space",
            LogFilter::Diplomacy => "Diplomacy",
        }
    }

    pub fn next(self) -> (r: Self)
        ensures
            r == self.successor(),
    {
        match self {
            LogFilter::All => LogFilter::War,
            LogFilter::War => LogFilter::TradeSocial,
            LogFilter::TradeSocial => LogFilter::ScienceSpace,
            LogFilter::ScienceSpace => LogFilter::Diplomacy,
            LogFilter::Diplomacy => LogFilter::All,
        }
    }
}

/// Whether an event is about a nation.
pub open spec fn involves(event: WorldEvent, nation: Nation) -> bool {
    match event.kind {
        WorldEventKind::Trade { actor, .. } => actor.nation == nation,
        WorldEventKind::Social { convener, .. } => convener.nation == nation,
        WorldEventKind::MacroShock { .. } => false,
        WorldEventKind::Warfare { winner, loser, .. } => winner == nation || loser == nation,
        WorldEventKind::EraShift { nation: n, .. } => n == nation,
        WorldEventKind::ScienceProgress { nation: n, .. } => n == nation,
        WorldEventKind::ScienceVictory { winner, .. } => winner == nation,
        WorldEventKind::InterstellarProgress { leader, .. } => leader == nation,
        WorldEventKind::InterstellarVictory { winner, .. } => winner == nation,
    }
}

pub fn event_involves(event: &WorldEvent, nation: Nation) -> (r: bool)
    ensures
        r == involves(*event, nation),
{
    match &event.kind {
        WorldEventKind::Trade { actor, .. } => actor.nation == nation,
        WorldEventKind::Social { convener, .. } => convener.nation == nation,
        WorldEventKind::MacroShock { .. } => false,
        WorldEventKind::Warfare { winner, loser, .. } => *winner == nation || *loser == nation,
        WorldEventKind::EraShift { nation: n, .. } => *n == nation,
        WorldEventKind::ScienceProgress { nation: n, .. } => *n == nation,
        WorldEventKind::ScienceVictory { winner, .. } => *winner == nation,
        WorldEventKind::InterstellarProgress { leader, .. } => *leader == nation,
        WorldEventKind::InterstellarVictory { winner, .. } => *winner == nation,
    }
}

/// Whether the log lists an event: the filter admits it, and if a nation is
/// pinned the event is about that nation.
pub open spec fn listed(event: WorldEvent, filter: LogFilter, pinned: Option<Nation>) -> bool {
    filter.admits(event.kind) && match pinned {
        Some(pin) => involves(event, pin),
        None => true,
    }
}

pub fn filter_event(event: &WorldEvent, filter: LogFilter, pinned: Option<Nation>) -> (r: bool)
    ensures
        r == listed(*event, filter, pinned),
{
    let passes: bool = match filter {
        LogFilter::All => true,
        LogFilter::War => match &event.kind {
            WorldEventKind::Warfare { .. } => true,
            _ => false,
        },
        LogFilter::TradeSocial => match &event.kind {
            WorldEventKind::Trade { .. } => true,
            WorldEventKind::Social { .. } => true,
            _ => false,
        },
        LogFilter::ScienceSpace => match &event.kind {
            WorldEventKind::ScienceProgress { .. } => true,
            WorldEventKind::ScienceVictory { .. } => true,
            WorldEventKind::InterstellarProgress { .. } => true,
            WorldEventKind::InterstellarVictory { .. } => true,
            _ => false,
        },
        LogFilter::Diplomacy => match &event.kind {
            WorldEventKind::EraShift { .. } => true,
            WorldEventKind::MacroShock { .. } => true,
            WorldEventKind::Social { .. } => true,
            _ => false,
        },
    };
    if !passes {
        return false;
    }
    match pinned {
        Some(pin) => event_involves(event, pin),
        None => true,
    }
}

/// The casualties an event reports; none for events that report no deaths.
pub open spec fn casualties_of(event: WorldEvent) -> int {
    match event.kind {
        WorldEventKind::Warfare { casualties, .. } => casualties as int,
        WorldEventKind::MacroShock { casualties, .. } => match casualties {
            Some(c) => c as int,
            None => 0,
        },
        _ => 0,
    }
}

pub fn casualties_from_event(event: &WorldEvent) -> (r: u64)
    ensures
        r == casualties_of(*event),
{
    match &event.kind {
        WorldEventKind::Warfare { casualties, .. } => *casualties,
        WorldEventKind::MacroShock { casualties, .. } => match casualties {
            Some(c) => *c,
            None => 0,
        },
        _ => 0,
    }
}

/// Whether every sample of a series is zero.
pub open spec fn all_zero(series: Seq<u64>) -> bool {
    forall|i: int| 0 <= i < series.len() ==> series[i] == 0
}

/// A series with at least one sample: an empty one becomes a single zero.
pub open spec fn filled(series: Seq<u64>) -> Seq<u64> {
    if series.len() == 0 {
        seq![0u64]
    } else {
        series
    }
}

/// A series fit for a chart: never empty, and never all zero.
pub open spec fn charted(series: Seq<u64>) -> Seq<u64> {
    if all_zero(filled(series)) {
        filled(series).update(0, 1)
    } else {
        filled(series)
    }
}

/// Makes a series fit for a chart.
pub fn ensure_nonempty(series: &mut Vec<u64>)
    ensures
        final(series)@ == charted(old(series)@),
        final(series)@.len() >= 1,
{
    if series.len() == 0 {
        series.push(0);
    }
    let ghost full = series@;
    assert(full =~= filled(old(series)@));
    let mut zero: bool = true;
    let mut i: usize = 0;
    while i < series.len()
        invariant
            i <= series@.len(),
            series@ == full,
            zero == all_zero(full.subrange(0, i as int)),
        decreases series@.len() - i,
    {
        proof {
            let upto = full.subrange(0, i as int);
            let next = full.subrange(0, i as int + 1);
            assert(forall|j: int| 0 <= j < upto.len() ==> upto[j] == next[j]);
            assert(next[i as int] == full[i as int]);
            if all_zero(next) {
                assert forall|j: int| 0 <= j < upto.len() implies upto[j] == 0 by {
                    assert(next[j] == 0);
                }
            }
        }
        if series[i] != 0 {
            zero = false;
        }
        i += 1;
    }
    assert(full.subrange(0, full.len() as int) =~= full);
    if zero {
        series.set(0, 1);
    }
    assert(series@ =~= charted(old(series)@));
}

/// How many ticks a bucket spans when `ticks` ticks are spread over `buckets`
/// buckets: the quotient rounded up, at least one.
pub open spec fn bucket_size(ticks: int, buckets: int) -> int {
    let size = ticks / buckets + if ticks % buckets != 0 {
        1int
    } else {
        0int
    };
    if size < 1 {
        1
    } else {
        size
    }
}

/// The bucket an event of the given tick falls in; late events fall in the last.
pub open spec fn bucket_of(tick: int, size: int, buckets: int) -> int {
    if tick / size > buckets - 1 {
        buckets - 1
    } else {
        tick / size
    }
}

/// Number of the first `n` events that fall in a bucket.
pub open spec fn events_in_bucket(
    events: Seq<WorldEvent>,
    size: int,
    buckets: int,
    bucket: int,
    n: int,
) -> int
    decreases n,
{
    if n <= 0 {
        0
    } else {
        events_in_bucket(events, size, buckets, bucket, n - 1) + if bucket_of(
            events[n - 1].tick as int,
            size,
            buckets,
        ) == bucket {
            1int
        } else {
            0int
        }
    }
}

fn bucket_span(last_tick: u64, buckets: usize) -> (r: u128)
    requires
        buckets > 0,
    ensures
        r == bucket_size(last_tick as int + 1, buckets as int),
        r >= 1,
{
    let whole: u64 = last_tick / (buckets as u64);
    let rest: u64 = last_tick % (buckets as u64);
    proof {
        let b = buckets as int;
        let t = last_tick as int;
        vstd::arithmetic::div_mod::lemma_fundamental_div_mod(t, b);
        if rest + 1 == b {
            assert(t + 1 == (whole + 1) * b + 0) by (nonlinear_arith)
                requires
                    t == b * whole + rest,
                    rest + 1 == b,
            ;
            vstd::arithmetic::div_mod::lemma_fundamental_div_mod_converse(t + 1, b, whole + 1, 0);
        } else {
            assert(t + 1 == whole * b + (rest + 1)) by (nonlinear_arith)
                requires
                    t == b * whole + rest,
            ;
            vstd::arithmetic::div_mod::lemma_fundamental_div_mod_converse(
                t + 1,
                b,
                whole as int,
                rest + 1,
            );
        }
    }
    whole as u128 + 1
}

fn bucket_index(tick: u64, size: u128, buckets: usize) -> (r: usize)
    requires
        size >= 1,
        buckets > 0,
    ensures
        r == bucket_of(tick as int, size as int, buckets as int),
        r < buckets,
{
    let at: u128 = (tick as u128) / size;
    if at > (buckets - 1) as u128 {
        buckets - 1
    } else {
        at as usize
    }
}

/// How many of a snapshot's events fall in each of `buckets` equal spans of the
/// ticks up to the snapshot's, made fit for a chart. Without buckets the series is
/// a single zero.
pub fn build_event_density_series(snapshot: &ObserverSnapshot, buckets: usize) -> (series: Vec<u64>)
    ensures
        buckets == 0 ==> series@ == seq![0u64],
        buckets > 0 ==> series@.len() == buckets,
        buckets > 0 ==> exists|counts: Seq<u64>|
            series@ == charted(counts) && counts.len() == buckets && forall|b: int|
                0 <= b < buckets ==> #[trigger] counts[b] == events_in_bucket(
                    snapshot.events@,
                    bucket_size(snapshot.tick as int + 1, buckets as int),
                    buckets as int,
                    b,
                    snapshot.events@.len() as int,
                ),
{
    if buckets == 0 {
        return vec![0];
    }
    let events = &snapshot.events;
    let size: u128 = bucket_span(snapshot.tick, buckets);
    let mut series: Vec<u64> = Vec::new();
    let mut b: usize = 0;
    while b < buckets
        invariant
            b <= buckets,
            series@.len() == b,
            forall|k: int| 0 <= k < b ==> series@[k] == 0,
        decreases buckets - b,
    {
        series.push(0);
        b += 1;
    }
    let mut i: usize = 0;
    while i < events.len()
        invariant
            buckets > 0,
            size >= 1,
            i <= events@.len(),
            series@.len() == buckets,
            forall|k: int|
                0 <= k < buckets ==> #[trigger] series@[k] == events_in_bucket(
                    events@,
                    size as int,
                    buckets as int,
                    k,
                    i as int,
                ),
            forall|k: int| 0 <= k < buckets ==> #[trigger] series@[k] <= i,
        decreases events@.len() - i,
    {
        let index: usize = bucket_index(events[i].tick, size, buckets);
        let value: u64 = series[index];
        series.set(index, value + 1);
        i += 1;
    }
    let ghost counts = series@;
    ensure_nonempty(&mut series);
    assert(series@ == charted(counts));
    series
}

/// How an event weighs on the mood: shocks and wars minus two, victories plus
/// three, progress and new eras plus two, trade and gatherings plus one.
pub open spec fn mood_of(kind: WorldEventKind) -> int {
    match kind {
        WorldEventKind::MacroShock { .. } => -2,
        WorldEventKind::Warfare { .. } => -2,
        WorldEventKind::ScienceVictory { .. } => 3,
        WorldEventKind::InterstellarVictory { .. } => 3,
        WorldEventKind::ScienceProgress { .. } => 2,
        WorldEventKind::InterstellarProgress { .. } => 2,
        WorldEventKind::EraShift { .. } => 2,
        WorldEventKind::Trade { .. } => 1,
        WorldEventKind::Social { .. } => 1,
    }
}

pub fn event_mood(event: &WorldEvent) -> (r: i64)
    ensures
        r == mood_of(event.kind),
{
    match &event.kind {
        WorldEventKind::MacroShock { .. } => -2,
        WorldEventKind::Warfare { .. } => -2,
        WorldEventKind::ScienceVictory { .. } => 3,
        WorldEventKind::InterstellarVictory { .. } => 3,
        WorldEventKind::ScienceProgress { .. } => 2,
        WorldEventKind::InterstellarProgress { .. } => 2,
        WorldEventKind::EraShift { .. } => 2,
        WorldEventKind::Trade { .. } => 1,
        WorldEventKind::Social { .. } => 1,
    }
}

/// Sum of the moods of the first `n` events that fall in a bucket.
pub open spec fn mood_in_bucket(
    events: Seq<WorldEvent>,
    size: int,
    buckets: int,
    bucket: int,
    n: int,
) -> int
    decreases n,
{
    if n <= 0 {
        0
    } else {
        mood_in_bucket(events, size, buckets, bucket, n - 1) + if bucket_of(
            events[n - 1].tick as int,
            size,
            buckets,
        ) == bucket {
            mood_of(events[n - 1].kind)
        } else {
            0
        }
    }
}

/// The smallest of the first `n` entries, but at most zero.
pub open spec fn floor_of(moods: Seq<i64>, n: int) -> int
    decreases n,
{
    if n <= 0 {
        0
    } else {
        let rest = floor_of(moods, n - 1);
        if moods[n - 1] < rest {
            moods[n - 1] as int
        } else {
            rest
        }
    }
}

/// The mood of a snapshot's events in each of `buckets` equal spans of the ticks up
/// to `last_tick`, lifted so that the lowest is zero and made fit for a chart.
pub fn build_sentiment_series(snapshot: &ObserverSnapshot, buckets: usize, last_tick: u64) -> (series:
    Vec<u64>)
    requires
        snapshot.events@.len() <= 0x7fff_ffff,
    ensures
        buckets == 0 ==> series@ == seq![0u64],
        buckets > 0 ==> series@.len() == buckets,
        buckets > 0 ==> exists|moods: Seq<i64>, lifted: Seq<u64>|
            series@ == charted(lifted) && moods.len() == buckets && lifted.len() == buckets
                && (forall|b: int|
                0 <= b < buckets ==> #[trigger] moods[b] == mood_in_bucket(
                    snapshot.events@,
                    bucket_size(last_tick as int + 1, buckets as int),
                    buckets as int,
                    b,
                    snapshot.events@.len() as int,
                )) && (forall|b: int|
                0 <= b < buckets ==> #[trigger] lifted[b] == moods[b] - floor_of(
                    moods,
                    buckets as int,
                )),
{
    if buckets == 0 {
        return vec![0];
    }
    let events = &snapshot.events;
    let size: u128 = bucket_span(last_tick, buckets);
    let mut moods: Vec<i64> = Vec::new();
    let mut b: usize = 0;
    while b < buckets
        invariant
            b <= buckets,
            moods@.len() == b,
            forall|k: int| 0 <= k < b ==> moods@[k] == 0,
        decreases buckets - b,
    {
        moods.push(0);
        b += 1;
    }
    let mut i: usize = 0;
    while i < events.len()
        invariant
            buckets > 0,
            size >= 1,
            i <= events@.len(),
            moods@.len() == buckets,
            forall|k: int|
                0 <= k < buckets ==> #[trigger] moods@[k] == mood_in_bucket(
                    events@,
                    size as int,
                    buckets as int,
                    k,
                    i as int,
                ),
            forall|k: int| 0 <= k < buckets ==> -3 * i <= #[trigger] moods@[k] <= 3 * i,
            events@.len() <= 0x7fff_ffff,
        decreases events@.len() - i,
    {
        let index: usize = bucket_index(events[i].tick, size, buckets);
        let value: i64 = moods[index];
        moods.set(index, value + event_mood(&events[i]));
        i += 1;
    }
    let ghost bound = 3 * events@.len();
    let mut floor: i64 = 0;
    let mut k: usize = 0;
    while k < buckets
        invariant
            k <= buckets,
            moods@.len() == buckets,
            floor == floor_of(moods@, k as int),
            forall|j: int| 0 <= j < buckets ==> -bound <= #[trigger] moods@[j] <= bound,
            -bound <= floor <= 0,
            forall|j: int| 0 <= j < k ==> floor <= #[trigger] moods@[j],
            bound <= 3 * 0x7fff_ffff,
        decreases buckets - k,
    {
        if moods[k] < floor {
            floor = moods[k];
        }
        k += 1;
    }
    let mut series: Vec<u64> = Vec::new();
    let mut k: usize = 0;
    while k < buckets
        invariant
            k <= buckets,
            moods@.len() == buckets,
            series@.len() == k,
            floor == floor_of(moods@, buckets as int),
            forall|j: int| 0 <= j < buckets ==> -bound <= #[trigger] moods@[j] <= bound,
            -bound <= floor <= 0,
            forall|j: int| 0 <= j < buckets ==> floor <= #[trigger] moods@[j],
            bound <= 3 * 0x7fff_ffff,
            forall|j: int| 0 <= j < k ==> #[trigger] series@[j] == moods@[j] - floor,
        decreases buckets - k,
    {
        series.push((moods[k] - floor) as u64);
        k += 1;
    }
    let ghost lifted = series@;
    ensure_nonempty(&mut series);
    assert(series@ == charted(lifted));
    series
}

/// A bar of `width` cells of which the share `value / max` is filled, rounded to
/// the nearest cell; `max` counts as at least one.
pub open spec fn filled_cells(value: u64, max: u64, width: int) -> int {
    let top = if max < 1 {
        1
    } else {
        max as int
    };
    if value >= top {
        width
    } else {
        (value * width + top / 2) / top
    }
}

/// Number of filled cells of a heat bar.
pub fn heat_cells(value: u64, max: u64, width: usize) -> (r: usize)
    ensures
        r == filled_cells(value, max, width as int),
        r <= width,
{
    let top: u128 = if max < 1 {
        1
    } else {
        max as u128
    };
    if value as u128 >= top {
        return width;
    }
    assert(value * width <= (top - 1) * width) by (nonlinear_arith)
        requires
            0 <= value <= top - 1,
            0 <= width,
    ;
    assert((top - 1) * width <= 0xffff_ffff_ffff_ffff * 0xffff_ffff_ffff_ffff) by (nonlinear_arith)
        requires
            1 <= top <= 0xffff_ffff_ffff_ffff,
            0 <= width <= 0xffff_ffff_ffff_ffff,
    ;
    let cells: u128 = ((value as u128) * (width as u128) + top / 2) / top;
    assert(cells <= width) by (nonlinear_arith)
        requires
            cells == (value * width + top / 2) / (top as int),
            value * width <= (top - 1) * width,
            top >= 1,
            width >= 0,
    ;
    cells as usize
}

/// `count` copies of a text, one after the other.
pub open spec fn repeated(text: Seq<char>, count: int) -> Seq<char>
    decreases count,
{
    if count <= 0 {
        Seq::<char>::empty()
    } else {
        repeated(text, count - 1) + text
    }
}

fn append_repeated(out: &mut String, text: &str, count: usize)
    ensures
        final(out)@ == old(out)@ + repeated(text@, count as int),
{
    let mut i: usize = 0;
    while i < count
        invariant
            i <= count,
            out@ == old(out)@ + repeated(text@, i as int),
        decreases count - i,
    {
        out.append(text);
        assert(out@ =~= old(out)@ + repeated(text@, i as int + 1));
        i += 1;
    }
}

/// A bar of `width` cells: full blocks for the filled share, light shade for the rest.
pub fn heat_bar(value: u64, max: u64, width: usize) -> (bar: String)
    ensures
        bar@ == repeated("█"@, filled_cells(value, max, width as int)) + repeated(
            "░"@,
            width - filled_cells(value, max, width as int),
        ),
{
    let filled: usize = heat_cells(value, max, width);
    let mut bar = String::new();
    append_repeated(&mut bar, "█", filled);
    append_repeated(&mut bar, "░", width - filled);
    assert(bar@ =~= repeated("█"@, filled as int) + repeated("░"@, width - filled));
    bar
}

/// The latest samples of a history (120 at most) as magnitudes scaled for a
/// chart: each sample times `scale`, in whole units rounded to nearest.
pub open spec fn charted_sample(sample: i64, scale: i64) -> int {
    let product = sample * scale;
    let magnitude = if product < 0 {
        -product
    } else {
        product
    };
    (magnitude + 500_000_000_000) / 1_000_000_000_000
}

/// Samples kept for a chart.
pub const CHART_SAMPLES: usize = 120;

pub fn series_from_history(history: &Vec<i64>, scale: i64) -> (series: Vec<u64>)
    requires
        -1_000_000_000 <= scale <= 1_000_000_000,
    ensures
        exists|mapped: Seq<u64>|
            series@ == charted(mapped) && mapped.len() == if history@.len() > CHART_SAMPLES {
                CHART_SAMPLES as int
            } else {
                history@.len() as int
            } && forall|k: int|
                0 <= k < mapped.len() ==> #[trigger] mapped[k] == charted_sample(
                    history@[history@.len() - mapped.len() + k],
                    scale,
                ),
{
    let len: usize = history.len();
    let start: usize = if len > CHART_SAMPLES {
        len - CHART_SAMPLES
    } else {
        0
    };
    let mut mapped: Vec<u64> = Vec::new();
    let mut i: usize = start;
    while i < len
        invariant
            start <= i <= len,
            len == history@.len(),
            -1_000_000_000 <= scale <= 1_000_000_000,
            mapped@.len() == i - start,
            forall|k: int|
                0 <= k < mapped@.len() ==> #[trigger] mapped@[k] == charted_sample(
                    history@[start + k],
                    scale,
                ),
        decreases len - i,
    {
        let sample: i64 = history[i];
        proof {
            crate::fixed::lemma_product_fits(sample as int, scale as int);
        }
        let product: i128 = (sample as i128) * (scale as i128);
        let magnitude: i128 = if product < 0 {
            -product
        } else {
            product
        };
        assert(magnitude <= 0x8000_0000_0000_0000 * 1_000_000_000) by (nonlinear_arith)
            requires
                magnitude == if sample * scale < 0 {
                    -(sample * scale)
                } else {
                    sample * scale
                },
                -0x8000_0000_0000_0000 <= sample <= 0x7fff_ffff_ffff_ffff,
                -1_000_000_000 <= scale <= 1_000_000_000,
        ;
        let units: i128 = (magnitude + 500_000_000_000) / 1_000_000_000_000;
        mapped.push(units as u64);
        i += 1;
    }
    let ghost plain = mapped@;
    ensure_nonempty(&mut mapped);
    assert(mapped@ == charted(plain));
    mapped
}

/// What the ticker says about an event.
pub open spec fn snippet_text(event: WorldEvent) -> Seq<char> {
    match event.kind {
        WorldEventKind::Trade { actor, trade_focus, .. } => actor.nation.name_text() + " Trade — "@
            + trade_focus@,
        WorldEventKind::Social { convener, gathering_theme, .. } => convener.nation.name_text()
            + " Gathering — "@ + gathering_theme@,
        WorldEventKind::MacroShock { stressor, projected_impact, .. } => "Shock "@ + stressor@
            + " → "@ + projected_impact@,
        WorldEventKind::Warfare { winner, loser, nuclear, .. } => if nuclear {
            winner.name_text() + " Nuke "@ + loser.name_text() + "!"@
        } else {
            winner.name_text() + " War "@ + loser.name_text()
        },
        WorldEventKind::EraShift { nation, era, .. } => nation.name_text() + " Era Rise → "@
            + era.label_text(),
        WorldEventKind::ScienceProgress { nation, progress } => nation.name_text() + " Moon "@
            + fixed_text(progress as int, 0) + "%"@,
        WorldEventKind::ScienceVictory { winner, .. } => winner.name_text() + " Science Victory"@,
        WorldEventKind::InterstellarProgress { leader, progress } => leader.name_text()
            + " Interstellar "@ + fixed_text(progress as int, 0) + "%"@,
        WorldEventKind::InterstellarVictory { winner, .. } => winner.name_text() + " Space Civ"@,
    }
}

pub fn event_snippet(event: &WorldEvent) -> (r: String)
    ensures
        r@ == snippet_text(*event),
{
    let mut out = String::new();
    match &event.kind {
        WorldEventKind::Trade { actor, trade_focus, .. } => {
            out.append(actor.nation.name());
            out.append(" Trade — ");
            out.append(trade_focus.as_str());
        },
        WorldEventKind::Social { convener, gathering_theme, .. } => {
            out.append(convener.nation.name());
            out.append(" Gathering — ");
            out.append(gathering_theme.as_str());
        },
        WorldEventKind::MacroShock { stressor, projected_impact, .. } => {
            out.append("Shock ");
            out.append(stressor.as_str());
            out.append(" → ");
            out.append(projected_impact.as_str());
        },
        WorldEventKind::Warfare { winner, loser, nuclear, .. } => {
            out.append(winner.name());
            if *nuclear {
                out.append(" Nuke ");
                out.append(loser.name());
                out.append("!");
            } else {
                out.append(" War ");
                out.append(loser.name());
            }
        },
        WorldEventKind::EraShift { nation, era, .. } => {
            out.append(nation.name());
            out.append(" Era Rise → ");
            out.append(era.label());
        },
        WorldEventKind::ScienceProgress { nation, progress } => {
            out.append(nation.name());
            out.append(" Moon ");
            append_fixed(&mut out, *progress, 0);
            out.append("%");
        },
        WorldEventKind::ScienceVictory { winner, .. } => {
            out.append(winner.name());
            out.append(" Science Victory");
        },
        WorldEventKind::InterstellarProgress { leader, progress } => {
            out.append(leader.name());
            out.append(" Interstellar ");
            append_fixed(&mut out, *progress, 0);
            out.append("%");
        },
        WorldEventKind::InterstellarVictory { winner, .. } => {
            out.append(winner.name());
            out.append(" Space Civ");
        },
    }
    assert(out@ =~= snippet_text(*event));
    out
}

/// The ticker: what it says about the three latest events, the latest first; a
/// quiet moment where there are none.
pub open spec fn ticker_text(events: Seq<WorldEvent>) -> Seq<char> {
    let n = events.len() as int;
    if n == 0 {
        "Quiet Moment — collecting data"@
    } else if n == 1 {
        snippet_text(events[n - 1])
    } else if n == 2 {
        snippet_text(events[n - 1]) + " · "@ + snippet_text(events[n - 2])
    } else {
        snippet_text(events[n - 1]) + " · "@ + snippet_text(events[n - 2]) + " · "@ + snippet_text(
            events[n - 3],
        )
    }
}

pub fn narrative_ticker(snapshot: &ObserverSnapshot) -> (r: String)
    ensures
        r@ == ticker_text(snapshot.events@),
{
    let events = &snapshot.events;
    let n: usize = events.len();
    if n == 0 {
        return String::from_str("Quiet Moment — collecting data");
    }
    let mut out = event_snippet(&events[n - 1]);
    if n >= 2 {
        out.append(" · ");
        let second = event_snippet(&events[n - 2]);
        out.append(second.as_str());
    }
    if n >= 3 {
        out.append(" · ");
        let third = event_snippet(&events[n - 3]);
        out.append(third.as_str());
    }
    assert(out@ =~= ticker_text(snapshot.events@));
    out
}

} // verus!
