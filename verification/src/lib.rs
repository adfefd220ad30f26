//! A small console sink for log records: a severity threshold, an optional
//! level prefix, an optional timestamp, and colour on the standard output.
//!
//! The sink decides whether a record passes, what its line says and which
//! stream it belongs to. It writes nothing itself: `log` hands back an
//! `Emission`, and whoever owns the streams writes it.

use vstd::prelude::*;

pub mod level;
pub mod order;
pub mod paint;
pub mod render;
pub mod stamp;

pub use crate::level::{parse_log_level, Level, DEFAULT_LOG_LEVEL};
pub use crate::paint::{Color, ColorPolicy};
pub use crate::render::{Destination, Emission};
pub use crate::stamp::TimestampMode;

use crate::level::{text_of, threshold_of};
use crate::paint::stdout_is_interactive;
use crate::render::{
    body_text, emission_of, lemma_stamp_leads_the_line, line_text, render_body, render_line,
    stamp_text, EmissionView,
};
use crate::stamp::{owned_text_of, read_stamp, TimestampModeView};

verus! {

/// What a sink was set up with, as a mathematical value.
pub struct Configuration {
    /// The least severe level that still passes.
    pub threshold: Level,
    /// Whether a line begins with the name of its level.
    pub show_level_prefix: bool,
    /// How the lines are stamped.
    pub timestamp: TimestampModeView,
    /// When the standard output is coloured.
    pub color_policy: ColorPolicy,
}

impl Configuration {
    /// A record passes if it is at least as severe as the threshold.
    pub open spec fn enables(self, level: Level) -> bool {
        level.at_least(self.threshold)
    }

    /// The colour of a record's line: that of its level where the line goes to
    /// the standard output and the policy asks for colour, and none otherwise.
    pub open spec fn color_for(self, level: Level, interactive: bool) -> Option<Color> {
        if Destination::of(level) == Destination::Stdout && self.color_policy.warrants(
            interactive,
        ) {
            Some(Color::of(level))
        } else {
            None
        }
    }

    /// The timestamp that a line bears, given the one that was read for it:
    /// none where stamping is off, whatever was read.
    pub open spec fn stamp_shown(self, stamp: Option<Seq<char>>) -> Option<Seq<char>> {
        if self.timestamp is Off {
            None
        } else {
            stamp
        }
    }

    /// What is written for a record, given the timestamp that was read for it
    /// and whether the standard output is attached to an interactive terminal:
    /// nothing where the record does not pass.
    pub open spec fn emission(
        self,
        level: Level,
        message: Seq<char>,
        stamp: Option<Seq<char>>,
        interactive: bool,
    ) -> Option<EmissionView> {
        if self.enables(level) {
            Some(
                EmissionView {
                    destination: Destination::of(level),
                    color: self.color_for(level, interactive),
                    line: line_text(
                        self.stamp_shown(stamp),
                        body_text(level, message, self.show_level_prefix),
                        self.color_for(level, interactive),
                    ),
                },
            )
        } else {
            None
        }
    }
}

/// The sink: a threshold and the options that shape a line. The instant at
/// which it was made is kept for the elapsed-time stamps.
#[derive(Debug)]
pub struct SimpleLogger {
    log_level: Level,
    prefix: bool,
    timestamp: TimestampMode,
    color_policy: ColorPolicy,
    start: std::time::Instant,
}

impl View for SimpleLogger {
    type V = Configuration;

    closed spec fn view(&self) -> Configuration {
        Configuration {
            threshold: self.log_level,
            show_level_prefix: self.prefix,
            timestamp: self.timestamp@,
            color_policy: self.color_policy,
        }
    }
}

impl Clone for SimpleLogger {
    /// A copy with the same configuration, which counts the elapsed time from
    /// the same instant.
    fn clone(&self) -> (copy: SimpleLogger)
        ensures
            copy@ == self@,
            copy.start_instant() == self.start_instant(),
    {
        SimpleLogger {
            log_level: self.log_level,
            prefix: self.prefix,
            timestamp: self.timestamp.clone(),
            color_policy: self.color_policy,
            start: self.start,
        }
    }
}

impl SimpleLogger {
    /// The instant at which the sink was made. The elapsed time is counted
    /// from it.
    pub closed spec fn start_instant(&self) -> std::time::Instant {
        self.start
    }

    /// Makes a sink from a verbosity argument and the three options. The
    /// verbosity is read as `parse_log_level` reads it.
    pub fn configure(
        verbosity: Option<&str>,
        show_level_prefix: bool,
        timestamp_mode: TimestampMode,
        color_policy: ColorPolicy,
    ) -> (sink: SimpleLogger)
        ensures
            sink@ == (Configuration {
                threshold: threshold_of(text_of(verbosity)),
                show_level_prefix,
                timestamp: timestamp_mode@,
                color_policy,
            }),
    {
        SimpleLogger {
            log_level: parse_log_level(verbosity),
            prefix: show_level_prefix,
            timestamp: timestamp_mode,
            color_policy,
            start: std::time::Instant::now(),
        }
    }

    /// A sink with the level prefix, without timestamps, coloured only on an
    /// interactive terminal.
    pub fn init(verbosity: Option<&str>) -> (sink: SimpleLogger)
        ensures
            sink@ == (Configuration {
                threshold: threshold_of(text_of(verbosity)),
                show_level_prefix: true,
                timestamp: TimestampModeView::Off,
                color_policy: ColorPolicy::OnlyIfInteractiveOutput,
            }),
    {
        Self::init_prefix(verbosity, true)
    }

    /// A sink with or without the level prefix, without timestamps, coloured
    /// only on an interactive terminal.
    pub fn init_prefix(verbosity: Option<&str>, prefix: bool) -> (sink: SimpleLogger)
        ensures
            sink@ == (Configuration {
                threshold: threshold_of(text_of(verbosity)),
                show_level_prefix: prefix,
                timestamp: TimestampModeView::Off,
                color_policy: ColorPolicy::OnlyIfInteractiveOutput,
            }),
    {
        Self::init_prefix_timestamp(verbosity, prefix, false)
    }

    /// A sink with or without the level prefix, coloured only on an
    /// interactive terminal. With `timestamp` each line is stamped with the
    /// time that has passed since this call.
    pub fn init_prefix_timestamp(
        verbosity: Option<&str>,
        prefix: bool,
        timestamp: bool,
    ) -> (sink: SimpleLogger)
        ensures
            sink@ == (Configuration {
                threshold: threshold_of(text_of(verbosity)),
                show_level_prefix: prefix,
                timestamp: if timestamp {
                    TimestampModeView::ElapsedSinceStart
                } else {
                    TimestampModeView::Off
                },
                color_policy: ColorPolicy::OnlyIfInteractiveOutput,
            }),
    {
        let mode = if timestamp {
            TimestampMode::ElapsedSinceStart
        } else {
            TimestampMode::Off
        };
        Self::configure(verbosity, prefix, mode, ColorPolicy::OnlyIfInteractiveOutput)
    }

    /// Whether a record of `level` passes the threshold.
    pub fn enabled(&self, level: Level) -> (r: bool)
        ensures
            r == self@.enables(level),
            r == (level.rank() <= self@.threshold.rank()),
    {
        level <= self.log_level
    }

    /// The least severe level that still passes.
    pub fn threshold(&self) -> (level: Level)
        ensures
            level == self@.threshold,
    {
        self.log_level
    }

    /// Whether a line begins with the name of its level.
    pub fn show_level_prefix(&self) -> (prefix: bool)
        ensures
            prefix == self@.show_level_prefix,
    {
        self.prefix
    }

    /// How the lines are stamped.
    pub fn timestamp_mode(&self) -> (mode: &TimestampMode)
        ensures
            mode@ == self@.timestamp,
    {
        &self.timestamp
    }

    /// When the standard output is coloured.
    pub fn color_policy(&self) -> (policy: ColorPolicy)
        ensures
            policy == self@.color_policy,
    {
        self.color_policy
    }

    /// Has the lines stamped with the wall-clock time in UTC from now on,
    /// written after `format`, a strftime pattern. This replaces whatever
    /// stamping was in force and changes nothing else. It changes this value
    /// only: a copy that was handed on before keeps its own mode.
    pub fn set_timestamp_format(&mut self, format: &str)
        ensures
            final(self)@ == (Configuration {
                timestamp: TimestampModeView::Clock(format@),
                ..old(self)@
            }),
            final(self).start_instant() == old(self).start_instant(),
    {
        self.timestamp = TimestampMode::Clock(String::from_str(format));
    }

    /// What is to be written for a record, given the timestamp that was read
    /// for it and whether the standard output is attached to an interactive
    /// terminal. Nothing is to be written for a record that does not pass, and
    /// no timestamp is shown where stamping is off.
    pub fn render(
        &self,
        level: Level,
        message: &str,
        stamp: Option<&str>,
        interactive: bool,
    ) -> (r: Option<Emission>)
        ensures
            emission_of(r) == self@.emission(level, message@, text_of(stamp), interactive),
    {
        if !self.enabled(level) {
            return None;
        }
        let stamp = match self.timestamp {
            TimestampMode::Off => None,
            _ => stamp,
        };
        let destination = Destination::for_level(level);
        let color = match destination {
            Destination::Stdout => if self.color_policy.is_warranted(interactive) {
                Some(Color::for_level(level))
            } else {
                None
            },
            Destination::Stderr => None,
        };
        let body = render_body(level, message, self.prefix);
        let line = render_line(stamp, body.as_str(), color);
        Some(Emission { destination, color, line })
    }

    /// Renders a record as `render` does, after reading for itself what
    /// `render` is told: the clock that the timestamp mode asks for, and
    /// whether the standard output is attached to an interactive terminal.
    /// Neither is read for a record that does not pass.
    pub fn log(&self, level: Level, message: &str) -> (r: Option<Emission>)
        ensures
            r is Some <==> self@.enables(level),
            r is Some ==> exists|stamp: Option<Seq<char>>, interactive: bool|
                self@.timestamp.admits(stamp) && emission_of(r) == #[trigger] self@.emission(
                    level,
                    message@,
                    stamp,
                    interactive,
                ),
    {
        if !self.enabled(level) {
            return None;
        }
        let stamp = read_stamp(&self.timestamp, &self.start);
        let interactive = stdout_is_interactive();
        let r = match &stamp {
            Some(token) => self.render(level, message, Some(token.as_str()), interactive),
            None => self.render(level, message, None, interactive),
        };
        proof {
            let s = owned_text_of(stamp);
            assert(self@.timestamp.admits(s));
            assert(emission_of(r) == self@.emission(level, message@, s, interactive));
        }
        r
    }
}

/// The threshold splits the levels in two: those at least as severe as it
/// pass, and those less severe do not.
pub proof fn lemma_threshold_splits_the_levels(config: Configuration, level: Level)
    ensures
        level.rank() <= config.threshold.rank() ==> config.enables(level),
        level.rank() > config.threshold.rank() ==> !config.enables(level),
{
}

/// Whatever passes, everything more severe passes too.
pub proof fn lemma_more_severe_passes_too(config: Configuration, level: Level, other: Level)
    requires
        config.enables(level),
        other.at_least(level),
    ensures
        config.enables(other),
{
}

/// Records of level `Error` go to the standard error and nowhere else, and
/// nothing else goes there. What goes to the standard error bears no colour.
pub proof fn lemma_errors_alone_go_to_stderr(
    config: Configuration,
    level: Level,
    message: Seq<char>,
    stamp: Option<Seq<char>>,
    interactive: bool,
)
    requires
        config.enables(level),
    ensures
        config.emission(level, message, stamp, interactive) matches Some(e) && {
            &&& e.destination == Destination::Stderr <==> level == Level::Error
            &&& e.destination == Destination::Stdout <==> level != Level::Error
            &&& e.destination == Destination::Stderr ==> e.color is None && e.line == stamp_text(
                config.stamp_shown(stamp),
            ) + body_text(level, message, config.show_level_prefix) + "\n"@
        },
{
    let body = body_text(level, message, config.show_level_prefix);
    let shown = config.stamp_shown(stamp);
    assert(line_text(shown, body, None) =~= stamp_text(shown) + body + "\n"@);
}

/// What goes to the standard output is coloured exactly if the policy is
/// `Always` or the output is attached to an interactive terminal, and then in
/// the colour of its level.
pub proof fn lemma_color_follows_the_policy(
    config: Configuration,
    level: Level,
    message: Seq<char>,
    stamp: Option<Seq<char>>,
    interactive: bool,
)
    requires
        config.enables(level),
        level != Level::Error,
    ensures
        config.emission(level, message, stamp, interactive) matches Some(e) && {
            &&& e.color is Some <==> config.color_policy == ColorPolicy::Always || interactive
            &&& e.color is Some ==> e.color == Some(Color::of(level))
        },
{
}

/// Under the elapsed-time mode every line that is written begins with its
/// timestamp and one space; the rest is the line as it is without a timestamp.
pub proof fn lemma_elapsed_time_leads_the_line(
    config: Configuration,
    level: Level,
    message: Seq<char>,
    stamp: Option<Seq<char>>,
    interactive: bool,
)
    requires
        config.timestamp is ElapsedSinceStart,
        config.timestamp.admits(stamp),
        config.enables(level),
    ensures
        stamp matches Some(token) && config.emission(level, message, stamp, interactive) matches Some(
            e,
        ) && config.emission(level, message, None, interactive) matches Some(bare) && {
            &&& e.line.len() > token.len()
            &&& e.line.subrange(0, token.len() as int) == token
            &&& e.line[token.len() as int] == ' '
            &&& e.line.subrange(token.len() as int + 1, e.line.len() as int) == bare.line
        },
{
    lemma_stamp_leads_the_line(
        stamp->0,
        body_text(level, message, config.show_level_prefix),
        config.color_for(level, interactive),
    );
}

/// Without a verbosity the threshold is `Error`: records of that level pass
/// and no others, so that nothing is written for a record of level `Info`.
pub proof fn lemma_default_passes_errors_only(
    config: Configuration,
    level: Level,
    message: Seq<char>,
    stamp: Option<Seq<char>>,
    interactive: bool,
)
    requires
        config.threshold == threshold_of(None),
    ensures
        config.threshold == Level::Error,
        config.enables(level) <==> level == Level::Error,
        level == Level::Info ==> config.emission(level, message, stamp, interactive) is None,
{
}

} // verus!
