//! Host-side helpers: the event kinds the host's timers emit, their
//! cadence configuration, tick timing, and console log lines.

use vstd::prelude::*;

verus! {

/// The three kinds of events the host's timers emit.
#[derive(Clone, Copy, Debug, PartialEq, Eq, Structural)]
pub enum GameEvent {
    Update,
    Draw,
    Input,
}

/// How often, in milliseconds, each event kind fires.
#[derive(Clone, Copy, Debug, PartialEq, Eq, Structural)]
pub struct Config {
    pub update_rate_ms: u64,
    pub draw_rate_ms: u64,
    pub input_rate_ms: u64,
}

impl Default for Config {
    /// Updates every 240 ms, draws every 30 ms, input polls every 10 ms.
    fn default() -> (c: Config)
        ensures
            c == (Config { update_rate_ms: 240, draw_rate_ms: 30, input_rate_ms: 10 }),
    {
        Config { update_rate_ms: 240, draw_rate_ms: 30, input_rate_ms: 10 }
    }
}

/// Time elapsed between two firings of one event kind.
pub struct Tick {
    delta: u128,
    duration: u128,
}

impl Tick {
    /// Milliseconds between the two most recent updates.
    pub closed spec fn delta_spec(&self) -> u128 {
        self.delta
    }

    /// Milliseconds from start to the most recent update.
    pub closed spec fn duration_spec(&self) -> u128 {
        self.duration
    }

    pub fn new() -> (t: Tick)
        ensures
            t.delta_spec() == 0,
            t.duration_spec() == 0,
    {
        let delta: u128 = 0;
        let duration: u128 = 0;

        Tick { delta, duration }
    }

    /// Note the total elapsed milliseconds at this firing; the delta
    /// becomes the time since the previous one.
    pub fn update(&mut self, elapsed_ms: u128)
        requires
            old(self).duration_spec() <= elapsed_ms,
        ensures
            final(self).delta_spec() == elapsed_ms - old(self).duration_spec(),
            final(self).duration_spec() == elapsed_ms,
    {
        self.delta = elapsed_ms - self.duration;
        self.duration = elapsed_ms;
    }

    pub fn delta(&self) -> (d: u128)
        ensures
            d == self.delta_spec(),
    {
        self.delta
    }

    pub fn duration(&self) -> (d: u128)
        ensures
            d == self.duration_spec(),
    {
        self.duration
    }
}

/// A console log line: the clock time in brackets, then the message.
pub open spec fn log_line_spec(time: Seq<char>, message: Seq<char>) -> Seq<char> {
    "["@ + time + "] "@ + message + "\n"@
}

/// Relies on chrono's `Local::now` and its `%H:%M:%S` formatting: hour,
/// minute and second are each rendered as exactly two zero-padded
/// digits, colon-separated, so the rendered clock is eight characters.
#[verifier::external_body]
fn local_clock() -> (r: String)
    ensures
        r@.len() == 8,
{
    chrono::Local::now().format("%H:%M:%S").to_string()
}

/// A log line stamped with the wall clock at the moment of the call.
pub fn get_log(message: String) -> (r: String)
    ensures
        exists|t: Seq<char>|
            t.len() == 8 && r@ == #[trigger] log_line_spec(t, message@),
{
    let time = local_clock();
    let mut r = String::from_str("[");
    r.append(time.as_str());
    r.append("] ");
    r.append(message.as_str());
    r.append("\n");
    proof {
        assert(r@ =~= log_line_spec(time@, message@));
    }
    r
}

/// The fixed greeting shown when the game starts.
pub open spec fn welcome_text_spec() -> Seq<char> {
    "Welcome!"@ + " Use the arrow (or AWSD) keys to move on map."@
        + " Use the ENTER to place structure or action."@
        + " Use PageUp/PageDown and Home/End to navigate menus."@ + " Use ESC to exit the game."@
}

/// The greeting as a stamped log line.
pub fn format_welcome_message() -> (r: String)
    ensures
        exists|t: Seq<char>|
            t.len() == 8 && r@ == #[trigger] log_line_spec(t, welcome_text_spec()),
{
    let mut message = String::from_str("Welcome!");
    message.append(" Use the arrow (or AWSD) keys to move on map.");
    message.append(" Use the ENTER to place structure or action.");
    message.append(" Use PageUp/PageDown and Home/End to navigate menus.");
    message.append(" Use ESC to exit the game.");
    proof {
        assert(message@ =~= welcome_text_spec());
    }
    get_log(message)
}

} // verus!
