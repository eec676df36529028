use vstd::prelude::*;
use vstd::std_specs::iter::IteratorSpec;

verus! {

/// The key that a synthetic keyboard event names.
#[derive(Debug, Clone, Copy, PartialEq, Eq, Structural)]
pub enum Key {
    /// The Enter key, by its virtual-key code.
    Enter,
    /// A Unicode scalar value, injected without a virtual-key mapping.
    Unicode(char),
}

/// One synthetic keyboard event: a key going down or coming up.
#[derive(Debug, Clone, Copy, PartialEq, Eq, Structural)]
pub struct KeyEvent {
    pub key: Key,
    pub down: bool,
}

/// Line breaks are typed with the Enter key.
pub open spec fn is_line_break(c: char) -> bool {
    c == '\n' || c == '\r'
}

pub open spec fn key_of(c: char) -> Key {
    if is_line_break(c) {
        Key::Enter
    } else {
        Key::Unicode(c)
    }
}

/// The down/up pair that types one character.
pub open spec fn pair_of(c: char) -> Seq<KeyEvent> {
    seq![KeyEvent { key: key_of(c), down: true }, KeyEvent { key: key_of(c), down: false }]
}

/// The events that type a sequence of characters, pair after pair, in order.
pub open spec fn events_of(s: Seq<char>) -> Seq<KeyEvent>
    decreases s.len(),
{
    if s.len() == 0 {
        Seq::empty()
    } else {
        events_of(s.drop_last()) + pair_of(s.last())
    }
}

/// Collects the characters of `text`, in order.
pub fn chars_of(text: &str) -> (r: Vec<char>)
    ensures
        r@ == text@,
{
    broadcast use vstd::string::axiom_spec_iter, vstd::string::next_postcondition;
    let mut it = text.chars();
    let mut out: Vec<char> = Vec::new();
    loop
        invariant
            it.obeys_prophetic_iter_laws(),
            it.decrease() is Some,
            out@ + it.remaining() == text@,
        ensures
            out@ == text@,
        decreases it.decrease()->0,
    {
        let ghost old_rest = it.remaining();
        match it.next() {
            Some(c) => {
                proof {
                    assert(out@.push(c) + it.remaining() =~= out@ + old_rest);
                }
                out.push(c);
            },
            None => {
                assert(out@ + it.remaining() =~= out@);
                break;
            },
        }
    }
    out
}


/// Proves the shape of `events_of`: two events per character, the down event
/// first, each carrying the character's key.
pub proof fn lemma_events_of(s: Seq<char>)
    ensures
        events_of(s).len() == 2 * s.len(),
        forall|i: int|
            0 <= i < s.len() ==> #[trigger] events_of(s)[2 * i] == (KeyEvent {
                key: key_of(s[i]),
                down: true,
            }) && events_of(s)[2 * i + 1] == (KeyEvent { key: key_of(s[i]), down: false }),
    decreases s.len(),
{
    if s.len() > 0 {
        lemma_events_of(s.drop_last());
        assert forall|i: int| 0 <= i < s.len() implies #[trigger] events_of(s)[2 * i] == (KeyEvent {
            key: key_of(s[i]),
            down: true,
        }) && events_of(s)[2 * i + 1] == (KeyEvent { key: key_of(s[i]), down: false }) by {
            if i < s.len() - 1 {
                assert(s.drop_last()[i] == s[i]);
            }
        }
    }
}

/// Each character other than a line break is typed as a down/up pair that
/// carries exactly that character; a line break is typed as an Enter pair and
/// never as its own scalar value.
pub proof fn lemma_char_round_trip(c: char)
    ensures
        events_of(seq![c]) == pair_of(c),
        !is_line_break(c) ==> events_of(seq![c])[0].key == Key::Unicode(c)
            && events_of(seq![c])[1].key == Key::Unicode(c),
        is_line_break(c) ==> events_of(seq![c])[0].key == Key::Enter
            && events_of(seq![c])[1].key == Key::Enter,
        events_of(seq![c])[0].down && !events_of(seq![c])[1].down,
{
    assert(seq![c].drop_last() =~= Seq::<char>::empty());
    assert(seq![c].last() == c);
    assert(events_of(Seq::<char>::empty()) == Seq::<KeyEvent>::empty());
    assert(Seq::<KeyEvent>::empty() + pair_of(c) =~= pair_of(c));
}

proof fn lemma_events_of_push(s: Seq<char>, c: char)
    ensures
        events_of(s.push(c)) == events_of(s) + pair_of(c),
{
    assert(s.push(c).drop_last() =~= s);
}

/// The down/up pair for one character.
pub fn key_pair(c: char) -> (r: [KeyEvent; 2])
    ensures
        r@ == pair_of(c),
{
    let key = if c == '\n' || c == '\r' {
        Key::Enter
    } else {
        Key::Unicode(c)
    };
    let r = [KeyEvent { key, down: true }, KeyEvent { key, down: false }];
    assert(r@ =~= pair_of(c));
    r
}

/// The key events that type `chars[start..end]`, in order.
pub fn key_events(chars: &Vec<char>, start: usize, end: usize) -> (r: Vec<KeyEvent>)
    requires
        start <= end <= chars.len(),
    ensures
        r@ == events_of(chars@.subrange(start as int, end as int)),
{
    let mut out: Vec<KeyEvent> = Vec::new();
    let mut i: usize = start;
    assert(chars@.subrange(start as int, start as int) =~= Seq::<char>::empty());
    while i < end
        invariant
            start <= i <= end <= chars.len(),
            out@ == events_of(chars@.subrange(start as int, i as int)),
        decreases end - i,
    {
        let pair = key_pair(chars[i]);
        proof {
            assert(chars@.subrange(start as int, i + 1) =~= chars@.subrange(
                start as int,
                i as int,
            ).push(chars@[i as int]));
            lemma_events_of_push(chars@.subrange(start as int, i as int), chars@[i as int]);
        }
        out.push(pair[0]);
        out.push(pair[1]);
        assert(out@ =~= events_of(chars@.subrange(start as int, i + 1)));
        i = i + 1;
    }
    out
}


/// The named speed presets.
#[derive(Debug, Clone, Copy, PartialEq, Eq, Structural)]
pub enum InputSpeed {
    Slow,
    Normal,
    Fast,
    Turbo,
}

/// The pacing triple that drives synthesis: the per-character delay, the
/// number of characters per batch and the pause between batches.
#[derive(Debug, Clone, Copy, PartialEq, Eq, Structural)]
pub struct Pacing {
    pub delay_ms: u64,
    pub batch_size: usize,
    pub batch_delay_ms: u64,
}

/// The triple of each named preset.
pub open spec fn profile(mode: InputSpeed) -> Pacing {
    match mode {
        InputSpeed::Slow => Pacing { delay_ms: 20, batch_size: 1, batch_delay_ms: 300 },
        InputSpeed::Normal => Pacing { delay_ms: 10, batch_size: 5, batch_delay_ms: 50 },
        InputSpeed::Fast => Pacing { delay_ms: 2, batch_size: 20, batch_delay_ms: 20 },
        InputSpeed::Turbo => Pacing { delay_ms: 0, batch_size: 50, batch_delay_ms: 10 },
    }
}

/// The triple after switching to a preset from `before`.
pub open spec fn switched(before: Pacing, mode: InputSpeed) -> Pacing {
    profile(mode)
}

/// A switch replaces the whole triple at once: the result is the preset's
/// triple whatever came before, and since the presets differ in batch size,
/// a triple with a preset's batch size carries that preset's delays too,
/// never a mix of an old delay and a new batch size.
pub proof fn lemma_switch_atomic(before: Pacing, mode: InputSpeed, other: InputSpeed)
    ensures
        switched(before, mode) == profile(mode),
        profile(other).batch_size == switched(before, mode).batch_size ==> profile(other)
            == switched(before, mode),
{
}

impl Pacing {
    /// The triple of a named preset.
    pub fn for_speed(mode: InputSpeed) -> (r: Pacing)
        ensures
            r == profile(mode),
    {
        match mode {
            InputSpeed::Slow => Pacing { delay_ms: 20, batch_size: 1, batch_delay_ms: 300 },
            InputSpeed::Normal => Pacing { delay_ms: 10, batch_size: 5, batch_delay_ms: 50 },
            InputSpeed::Fast => Pacing { delay_ms: 2, batch_size: 20, batch_delay_ms: 20 },
            InputSpeed::Turbo => Pacing { delay_ms: 0, batch_size: 50, batch_delay_ms: 10 },
        }
    }
}

/// The active speed configuration: one pacing triple, replaced as a whole
/// when a preset is chosen, and the last preset named.
pub struct InputSimulator {
    pub pacing: Pacing,
    pub speed_mode: InputSpeed,
}

impl InputSimulator {
    /// Ten milliseconds per character, one character per batch, no pause
    /// between batches.
    pub fn new() -> (r: InputSimulator)
        ensures
            r.pacing == (Pacing { delay_ms: 10, batch_size: 1, batch_delay_ms: 0 }),
            r.speed_mode == InputSpeed::Normal,
    {
        InputSimulator {
            pacing: Pacing { delay_ms: 10, batch_size: 1, batch_delay_ms: 0 },
            speed_mode: InputSpeed::Normal,
        }
    }

    /// As `new`, with the given per-character delay.
    pub fn with_delay(delay_ms: u64) -> (r: InputSimulator)
        ensures
            r.pacing == (Pacing { delay_ms, batch_size: 1, batch_delay_ms: 0 }),
            r.speed_mode == InputSpeed::Normal,
    {
        InputSimulator {
            pacing: Pacing { delay_ms, batch_size: 1, batch_delay_ms: 0 },
            speed_mode: InputSpeed::Normal,
        }
    }

    /// Switches to a preset: the whole triple is replaced at once.
    pub fn set_speed_mode(&mut self, mode: InputSpeed)
        ensures
            final(self).pacing == switched(old(self).pacing, mode),
            final(self).speed_mode == mode,
    {
        let pacing = Pacing::for_speed(mode);
        self.pacing = pacing;
        self.speed_mode = mode;
    }

    /// Sets the three fields of the triple independently; the preset name is
    /// kept.
    pub fn set_custom_params(&mut self, delay_ms: u64, batch_size: usize, batch_delay_ms: u64)
        ensures
            final(self).pacing == (Pacing { delay_ms, batch_size, batch_delay_ms }),
            final(self).speed_mode == old(self).speed_mode,
    {
        self.pacing = Pacing { delay_ms, batch_size, batch_delay_ms };
    }

    /// Sets the per-character delay alone.
    pub fn set_delay(&mut self, delay_ms: u64)
        ensures
            final(self).pacing == (Pacing { delay_ms, ..old(self).pacing }),
            final(self).speed_mode == old(self).speed_mode,
    {
        self.pacing.delay_ms = delay_ms;
    }

    /// The active triple.
    pub fn pacing(&self) -> (r: Pacing)
        ensures
            r == self.pacing,
    {
        self.pacing
    }
}


/// The number of batches of at most `b` characters that `n` characters make:
/// the ceiling of `n / b`.
pub open spec fn batch_count(n: nat, b: nat) -> nat {
    if b == 0 {
        0
    } else {
        ((n + b - 1) as nat) / b
    }
}

/// Where the batch that starts at `start` ends.
pub open spec fn batch_end(start: int, n: int, b: int) -> int {
    if start + b < n {
        start + b
    } else {
        n
    }
}

/// The text cut, in order, into consecutive groups of `b` characters; the
/// last group may be shorter.
pub open spec fn batches(s: Seq<char>, b: nat) -> Seq<Seq<char>> {
    Seq::new(
        batch_count(s.len(), b),
        |i: int| s.subrange(i * b, batch_end(i * b, s.len() as int, b as int)),
    )
}

proof fn lemma_batch_bounds(n: nat, b: nat, i: int)
    requires
        b >= 1,
        0 <= i < batch_count(n, b),
    ensures
        i * b < n,
        i < batch_count(n, b) - 1 ==> (i + 1) * b < n,
        i == batch_count(n, b) - 1 ==> n <= (i + 1) * b,
{
    let c = batch_count(n, b) as int;
    let m = (n + b - 1) as int;
    assert(c * b <= m < c * b + b) by (nonlinear_arith)
        requires
            c == m / b as int,
            b >= 1,
            m >= 0,
    ;
    assert(i * b <= (c - 1) * b) by (nonlinear_arith)
        requires
            i <= c - 1,
            b >= 1,
    ;
    if i < c - 1 {
        assert((i + 1) * b <= (c - 1) * b) by (nonlinear_arith)
            requires
                i + 1 <= c - 1,
                b >= 1,
        ;
    }
    assert((c - 1) * b == c * b - b) by (nonlinear_arith);
    assert((i + 1) * b == i * b + b) by (nonlinear_arith);
}

/// A text of `n` characters makes exactly `ceil(n / b)` batches, taken in
/// order; each one but the last holds exactly `b` characters and the last
/// holds between one and `b`.
pub proof fn lemma_batch_partition(s: Seq<char>, b: nat)
    requires
        b >= 1,
    ensures
        batches(s, b).len() == batch_count(s.len(), b),
        batch_count(s.len(), b) * b >= s.len(),
        batch_count(s.len(), b) * b < s.len() + b,
        forall|i: int|
            0 <= i < batches(s, b).len() ==> #[trigger] batches(s, b)[i] == s.subrange(
                i * b,
                i * b + batches(s, b)[i].len(),
            ),
        forall|i: int|
            0 <= i < batches(s, b).len() - 1 ==> #[trigger] batches(s, b)[i].len() == b,
        batches(s, b).len() > 0 ==> 1 <= batches(s, b).last().len() <= b,
{
    let n = s.len();
    let c = batch_count(n, b) as int;
    let m = (n + b - 1) as int;
    assert(c * b <= m < c * b + b) by (nonlinear_arith)
        requires
            c == m / b as int,
            b >= 1,
            m >= 0,
    ;
    assert forall|i: int| 0 <= i < batches(s, b).len() implies #[trigger] batches(s, b)[i]
        == s.subrange(i * b, i * b + batches(s, b)[i].len()) by {
        lemma_batch_bounds(n, b, i);
    }
    assert forall|i: int| 0 <= i < batches(s, b).len() - 1 implies #[trigger] batches(
        s,
        b,
    )[i].len() == b by {
        lemma_batch_bounds(n, b, i);
        assert((i + 1) * b == i * b + b) by (nonlinear_arith);
    }
    if c > 0 {
        lemma_batch_bounds(n, b, c - 1);
        assert(((c - 1) + 1) * b == (c - 1) * b + b) by (nonlinear_arith);
    }
}


/// How many characters are typed after `k` batches were accepted.
pub open spec fn typed_after(k: nat, n: nat, b: nat) -> nat {
    if k * b < n {
        k * b
    } else {
        n
    }
}

/// A run over `n` characters in batches of `b`: each accepted batch takes the
/// count of typed characters from `typed_after(k)` to `typed_after(k + 1)`,
/// and characters remain exactly while fewer than `ceil(n / b)` batches were
/// accepted. So a run that fails nowhere submits exactly `ceil(n / b)`
/// batches.
pub proof fn lemma_run_batch_count(n: nat, b: nat, k: nat)
    requires
        b >= 1,
    ensures
        typed_after(0, n, b) == 0,
        typed_after(k, n, b) < n ==> batch_end(typed_after(k, n, b) as int, n as int, b as int)
            == typed_after(k + 1, n, b),
        typed_after(k, n, b) < n <==> k < batch_count(n, b),
        typed_after(k, n, b) < n ==> typed_after(k, n, b) % b == 0,
{
    let c = batch_count(n, b) as int;
    let m = (n + b - 1) as int;
    assert(c * b <= m < c * b + b) by (nonlinear_arith)
        requires
            c == m / b as int,
            b >= 1,
            m >= 0,
    ;
    assert((k + 1) * b == k * b + b) by (nonlinear_arith);
    assert(0 * b == 0) by (nonlinear_arith);
    if k < c {
        assert(k * b <= (c - 1) * b) by (nonlinear_arith)
            requires
                k <= c - 1,
                b >= 1,
        ;
        assert((c - 1) * b == c * b - b) by (nonlinear_arith);
    } else {
        assert(k * b >= c * b) by (nonlinear_arith)
            requires
                k >= c,
                b >= 1,
        ;
    }
    assert((k * b) % b == 0) by (nonlinear_arith)
        requires
            b >= 1,
    ;
}

/// Where a typing session stands.
#[derive(Debug, Clone, Copy, PartialEq, Eq, Structural)]
pub enum SessionState {
    /// The next batch may be built and submitted.
    Ready,
    /// A batch of `submitted` events was handed out and its count of accepted
    /// events is awaited.
    Awaiting { submitted: usize },
    /// A batch was only partly accepted; nothing more is submitted.
    Failed { accepted: usize, submitted: usize },
}

/// What the simulator decided after a batch was submitted.
#[derive(Debug, Clone, Copy, PartialEq, Eq, Structural)]
pub enum BatchOutcome {
    /// Fewer (or more) events were accepted than submitted: the run stops.
    Rejected { accepted: usize, submitted: usize },
    /// The whole batch went through: `typed` of `total` characters are done.
    /// `progress` is the percentage to report, if one is due; the two pauses
    /// are to be slept, in order, before the next batch.
    Accepted {
        typed: usize,
        total: usize,
        progress: Option<usize>,
        batch_pause_ms: Option<u64>,
        char_pause_ms: Option<u64>,
    },
}

/// Whether progress is reported once `typed` of `total` characters are done:
/// about every tenth of the text, and always at the end.
pub open spec fn progress_due(typed: nat, total: nat) -> bool {
    typed % (total / 10 + 1) == 0 || typed == total
}

/// The percentage of the text typed, rounded down.
pub open spec fn percent(typed: nat, total: nat) -> nat
    recommends
        total > 0,
{
    typed * 100 / total
}

/// The pause after a batch while more batches remain.
pub open spec fn batch_pause(p: Pacing, typed: nat, total: nat) -> Option<u64> {
    if p.batch_delay_ms > 0 && typed < total {
        Some(p.batch_delay_ms)
    } else {
        None
    }
}

/// The per-character pause, which applies only to batches of five or fewer.
pub open spec fn char_pause(p: Pacing) -> Option<u64> {
    if p.delay_ms > 0 && p.batch_size <= 5 {
        Some(p.delay_ms)
    } else {
        None
    }
}

/// One run of typing a text: the characters, the pacing fixed when the run
/// began, how many characters were typed so far, and the state.
pub struct TypingSession {
    pub chars: Vec<char>,
    pub pacing: Pacing,
    pub typed: usize,
    pub state: SessionState,
}

impl TypingSession {
    /// Where the batch that comes next ends.
    pub open spec fn next_end(&self) -> int {
        batch_end(self.typed as int, self.chars.len() as int, self.pacing.batch_size as int)
    }

    /// Which batch of the partition comes next.
    pub open spec fn batch_index(&self) -> int {
        self.typed as int / self.pacing.batch_size as int
    }

    /// Batches start at multiples of the batch size; a batch that was handed
    /// out is awaited with its event count.
    pub open spec fn wf(&self) -> bool {
        &&& self.pacing.batch_size >= 1
        &&& self.typed <= self.chars.len()
        &&& self.typed % self.pacing.batch_size == 0 || self.typed == self.chars.len()
        &&& self.state is Awaiting ==> {
            &&& self.typed < self.chars.len()
            &&& self.state->Awaiting_submitted == 2 * (self.next_end() - self.typed)
        }
    }

    pub open spec fn finished(&self) -> bool {
        ||| self.state is Failed
        ||| (self.state is Ready && self.typed == self.chars.len())
    }

    /// A run over `chars` with the given pacing; an empty text is finished
    /// before anything is submitted.
    pub fn start(chars: Vec<char>, pacing: Pacing) -> (r: TypingSession)
        requires
            pacing.batch_size >= 1,
        ensures
            r.wf(),
            r.chars@ == chars@,
            r.pacing == pacing,
            r.typed == 0,
            r.state == SessionState::Ready,
            r.finished() <==> chars@.len() == 0,
    {
        TypingSession { chars, pacing, typed: 0, state: SessionState::Ready }
    }

    /// Whether the run is over, by success or by a rejected batch.
    pub fn is_finished(&self) -> (r: bool)
        ensures
            r == self.finished(),
    {
        match self.state {
            SessionState::Failed { .. } => true,
            SessionState::Ready => self.typed == self.chars.len(),
            SessionState::Awaiting { .. } => false,
        }
    }

    /// Builds the next batch and waits for its outcome. The batch is the
    /// next group of the text's partition, typed as key events.
    pub fn next_batch(&mut self) -> (r: Vec<KeyEvent>)
        requires
            old(self).wf(),
            old(self).state == SessionState::Ready,
            !old(self).finished(),
        ensures
            final(self).wf(),
            old(self).batch_index() < batches(
                old(self).chars@,
                old(self).pacing.batch_size as nat,
            ).len(),
            old(self).chars@.subrange(old(self).typed as int, old(self).next_end()) == batches(
                old(self).chars@,
                old(self).pacing.batch_size as nat,
            )[old(self).batch_index()],
            r@ == events_of(old(self).chars@.subrange(old(self).typed as int, old(self).next_end())),
            final(self).state == (SessionState::Awaiting { submitted: r.len() }),
            final(self).chars == old(self).chars,
            final(self).pacing == old(self).pacing,
            final(self).typed == old(self).typed,
    {
        let b = self.pacing.batch_size;
        let n = self.chars.len();
        let end = if b < n - self.typed {
            self.typed + b
        } else {
            n
        };
        let events = key_events(&self.chars, self.typed, end);
        proof {
            let k = self.typed as int / b as int;
            assert(self.typed as int == k * b) by (nonlinear_arith)
                requires
                    self.typed as int % b as int == 0,
                    k == self.typed as int / b as int,
                    b >= 1,
            ;
            let c = batch_count(n as nat, b as nat) as int;
            let m = (n + b - 1) as int;
            assert(c * b <= m < c * b + b) by (nonlinear_arith)
                requires
                    c == m / b as int,
                    b >= 1,
                    m >= 0,
            ;
            assert(k < c) by (nonlinear_arith)
                requires
                    k * b < n,
                    n <= m - b + 1,
                    m < c * b + b,
                    b >= 1,
            ;
            lemma_events_of(self.chars@.subrange(self.typed as int, end as int));
        }
        self.state = SessionState::Awaiting { submitted: events.len() };
        events
    }

    /// Takes the count of events that the system accepted from the batch
    /// last handed out. Any count other than the one submitted ends the run.
    pub fn on_submitted(&mut self, accepted: usize) -> (r: BatchOutcome)
        requires
            old(self).wf(),
            old(self).state is Awaiting,
        ensures
            final(self).wf(),
            final(self).chars == old(self).chars,
            final(self).pacing == old(self).pacing,
            ({
                let submitted = old(self).state->Awaiting_submitted;
                let end = old(self).next_end();
                let n = old(self).chars.len();
                if accepted != submitted {
                    &&& r == (BatchOutcome::Rejected { accepted, submitted })
                    &&& final(self).state == (SessionState::Failed { accepted, submitted })
                    &&& final(self).typed == old(self).typed
                } else {
                    &&& final(self).typed == end
                    &&& final(self).state == SessionState::Ready
                    &&& r == (BatchOutcome::Accepted {
                        typed: end as usize,
                        total: n,
                        progress: if progress_due(end as nat, n as nat) {
                            Some(percent(end as nat, n as nat) as usize)
                        } else {
                            None
                        },
                        batch_pause_ms: batch_pause(old(self).pacing, end as nat, n as nat),
                        char_pause_ms: char_pause(old(self).pacing),
                    })
                }
            }),
    {
        let submitted = match self.state {
            SessionState::Awaiting { submitted } => submitted,
            _ => 0,
        };
        if accepted != submitted {
            self.state = SessionState::Failed { accepted, submitted };
            return BatchOutcome::Rejected { accepted, submitted };
        }
        let b = self.pacing.batch_size;
        let n = self.chars.len();
        let end = if b < n - self.typed {
            self.typed + b
        } else {
            n
        };
        proof {
            if end < n {
                assert((self.typed + b) as int % b as int == 0) by (nonlinear_arith)
                    requires
                        self.typed as int % b as int == 0,
                        b >= 1,
                ;
            }
        }
        self.typed = end;
        self.state = SessionState::Ready;
        let progress = if end % (n / 10 + 1) == 0 || end == n {
            let pct: u128 = (end as u128) * 100 / (n as u128);
            proof {
                assert(pct <= 100) by (nonlinear_arith)
                    requires
                        pct == (end as int) * 100 / (n as int),
                        end <= n,
                        n >= 1,
                ;
            }
            Some(pct as usize)
        } else {
            None
        };
        let batch_pause_ms = if self.pacing.batch_delay_ms > 0 && end < n {
            Some(self.pacing.batch_delay_ms)
        } else {
            None
        };
        let char_pause_ms = if self.pacing.delay_ms > 0 && b <= 5 {
            Some(self.pacing.delay_ms)
        } else {
            None
        };
        BatchOutcome::Accepted { typed: end, total: n, progress, batch_pause_ms, char_pause_ms }
    }
}

impl InputSimulator {
    /// Begins a run that types `text` with the active triple.
    pub fn begin_typing(&self, text: &str) -> (r: TypingSession)
        requires
            self.pacing.batch_size >= 1,
        ensures
            r.wf(),
            r.chars@ == text@,
            r.pacing == self.pacing,
            r.typed == 0,
            r.state == SessionState::Ready,
            r.finished() <==> text@.len() == 0,
    {
        TypingSession::start(chars_of(text), self.pacing)
    }
}

} // verus!
