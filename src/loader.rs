use vstd::prelude::*;

verus! {

/// Columns that the progress line covers.
pub const LINE_WIDTH: usize = 80;

/// A progress indicator shown while some operation runs. It is started before
/// the operation and stopped when the operation's outcome is in; `stops`
/// counts the times a running indicator was stopped.
pub struct HammerLoader {
    pub is_running: bool,
    pub stops: Ghost<nat>,
}

/// The state of an indicator.
pub struct LoaderView {
    pub running: bool,
    pub stops: nat,
}

impl View for HammerLoader {
    type V = LoaderView;

    open spec fn view(&self) -> LoaderView {
        LoaderView { running: self.is_running, stops: self.stops@ }
    }
}

/// An indicator after it is started.
pub open spec fn started(l: LoaderView) -> LoaderView {
    LoaderView { running: true, ..l }
}

/// An indicator after the operation it accompanies ended with `outcome`, and
/// what is handed back: the outcome itself.
pub open spec fn finished<T, E>(l: LoaderView, outcome: Result<T, E>) -> (LoaderView, Result<T, E>) {
    (LoaderView { running: false, stops: if l.running {
        l.stops + 1
    } else {
        l.stops
    } }, outcome)
}

/// The hammer of animation frame `i`.
pub open spec fn hammer_of(i: nat) -> Seq<char> {
    if i % 2 == 0 {
        "\u{1F528}"@
    } else {
        "\u{2692}\u{FE0F}"@
    }
}

/// The spark of animation frame `i`.
pub open spec fn spark_of(i: nat) -> Seq<char> {
    if i % 4 == 0 {
        "\u{2728}"@
    } else if i % 4 == 1 {
        "\u{1F4A5}"@
    } else if i % 4 == 2 {
        "\u{2B50}"@
    } else {
        "\u{1F31F}"@
    }
}

/// The line drawn for animation frame `i` while `message` is in progress.
pub open spec fn frame_text(i: nat, message: Seq<char>) -> Seq<char> {
    "\r"@ + hammer_of(i) + " "@ + spark_of(i) + " Smashing through the code... "@ + message + " "@
        + spark_of(i)
}

/// The text that blanks the progress line and returns to its start.
pub open spec fn blank_line() -> Seq<char> {
    "\r"@ + Seq::new(LINE_WIDTH as nat, |i: int| ' ') + "\r"@
}

fn hammer(i: usize) -> (r: &'static str)
    ensures
        r@ == hammer_of(i as nat),
{
    if i % 2 == 0 {
        "\u{1F528}"
    } else {
        "\u{2692}\u{FE0F}"
    }
}

fn spark(i: usize) -> (r: &'static str)
    ensures
        r@ == spark_of(i as nat),
{
    if i % 4 == 0 {
        "\u{2728}"
    } else if i % 4 == 1 {
        "\u{1F4A5}"
    } else if i % 4 == 2 {
        "\u{2B50}"
    } else {
        "\u{1F31F}"
    }
}

impl HammerLoader {
    pub fn new() -> (r: Self)
        ensures
            !r@.running,
            r@.stops == 0,
    {
        HammerLoader { is_running: false, stops: Ghost(0) }
    }

    /// Starts the indicator.
    pub fn start(&mut self)
        ensures
            final(self)@ == started(old(self)@),
    {
        self.is_running = true;
    }

    /// Whether the animation should draw another frame.
    pub fn keep_animating(&self) -> (r: bool)
        ensures
            r == self@.running,
    {
        self.is_running
    }

    /// Stops the indicator once the operation ended, and hands its outcome
    /// back untouched.
    pub fn finish<T, E>(&mut self, outcome: Result<T, E>) -> (r: Result<T, E>)
        ensures
            (final(self)@, r) == finished(old(self)@, outcome),
    {
        if self.is_running {
            self.stops = Ghost(self.stops@ + 1);
        }
        self.is_running = false;
        outcome
    }

    /// The line drawn for animation frame `frame_index`.
    pub fn frame_line(frame_index: usize, message: &str) -> (r: String)
        ensures
            r@ == frame_text(frame_index as nat, message@),
    {
        let h = hammer(frame_index);
        let s = spark(frame_index);
        String::from_str("\r").concat(h).concat(" ").concat(s).concat(
            " Smashing through the code... ",
        ).concat(message).concat(" ").concat(s)
    }

    /// The text that clears the progress line.
    pub fn clear_line() -> (r: String)
        ensures
            r@ == blank_line(),
    {
        let mut out = String::from_str("\r");
        let mut i: usize = 0;
        proof {
            reveal_strlit(" ");
            reveal_strlit("\r");
        }
        while i < LINE_WIDTH
            invariant
                i <= LINE_WIDTH,
                out@ == "\r"@ + Seq::new(i as nat, |j: int| ' '),
            decreases LINE_WIDTH - i,
        {
            out.append(" ");
            proof {
                reveal_strlit(" ");
                assert(" "@ =~= seq![' ']);
                assert(Seq::new((i + 1) as nat, |j: int| ' ') =~= Seq::new(i as nat, |j: int| ' ').push(' '));
                assert(out@ =~= "\r"@ + Seq::new((i + 1) as nat, |j: int| ' '));
            }
            i = i + 1;
        }
        out.append("\r");
        out
    }
}

/// Wrapping an operation in an indicator changes nothing of its outcome, and
/// the indicator is stopped exactly once, whether the operation succeeded or
/// failed; stopping it again has no further effect.
pub proof fn lemma_indicator_stopped_once<T, E>(l: LoaderView, outcome: Result<T, E>)
    ensures
        ({
            let (f, r) = finished(started(l), outcome);
            &&& r == outcome
            &&& !f.running
            &&& f.stops == l.stops + 1
            &&& finished(f, r).0.stops == f.stops
        }),
{
}

} // verus!
