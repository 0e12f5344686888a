//! How a log line is laid out: the choices a logger's configuration offers,
//! and the builder that makes them.
use vstd::prelude::*;
use vstd::string::*;
use vstd::array::*;

verus! {

/// On which side the level of a log line is padded.
#[derive(Debug, Clone, Copy, PartialEq, Eq, Structural)]
pub enum LevelPadding {
    /// Add spaces on the left side.
    Left,
    /// Add spaces on the right side.
    Right,
    /// Do not pad the level.
    Off,
}

/// On which side the thread of a log line is padded, and up to what width.
#[derive(Debug, Clone, Copy, PartialEq, Eq, Structural)]
pub enum ThreadPadding {
    /// Add spaces on the left side, up to this many.
    Left(usize),
    /// Add spaces on the right side, up to this many.
    Right(usize),
    /// Do not pad the thread.
    Off,
}

/// On which side the target of a log line is padded, and up to what width.
#[derive(Debug, Clone, Copy, PartialEq, Eq, Structural)]
pub enum TargetPadding {
    /// Add spaces on the left side, up to this many.
    Left(usize),
    /// Add spaces on the right side, up to this many.
    Right(usize),
    /// Do not pad the target.
    Off,
}

/// What a log line says of the thread that wrote it.
#[derive(Debug, Clone, Copy, PartialEq, Eq, Structural)]
pub enum ThreadLogMode {
    /// The thread's id only.
    IDs,
    /// The thread's name only.
    Names,
    /// The name where the thread has one, the id where it has none.
    Both,
}

/// How grave a log line is, from the gravest on.
#[derive(Debug, Clone, Copy, PartialEq, Eq, Structural)]
pub enum Level {
    Error,
    Warn,
    Info,
    Debug,
    Trace,
}

impl Level {
    /// The place of the level among the levels, counted from one.
    pub open spec fn spec_index(self) -> usize {
        match self {
            Level::Error => 1,
            Level::Warn => 2,
            Level::Info => 3,
            Level::Debug => 4,
            Level::Trace => 5,
        }
    }

    pub fn index(self) -> (r: usize)
        ensures
            r == self.spec_index(),
            1 <= r <= 5,
    {
        match self {
            Level::Error => 1,
            Level::Warn => 2,
            Level::Info => 3,
            Level::Debug => 4,
            Level::Trace => 5,
        }
    }
}

/// From which level on something is logged, if at all.
#[derive(Debug, Clone, Copy, PartialEq, Eq, Structural)]
pub enum LevelFilter {
    Off,
    Error,
    Warn,
    Info,
    Debug,
    Trace,
}

/// A color of the terminal.
#[derive(Debug, Clone, Copy, PartialEq, Eq, Structural)]
pub enum Color {
    Black,
    Blue,
    Green,
    Red,
    Cyan,
    Magenta,
    Yellow,
    White,
    Ansi256(u8),
    Rgb(u8, u8, u8),
}

/// How far local time is from universal time.
#[derive(Debug, Clone, Copy, PartialEq, Eq, Structural)]
pub struct UtcOffset {
    pub hours: i8,
    pub minutes: i8,
    pub seconds: i8,
}

impl UtcOffset {
    /// Universal time itself.
    pub open spec fn spec_utc() -> UtcOffset {
        UtcOffset { hours: 0, minutes: 0, seconds: 0 }
    }
}

/// How the time of a log line is written.
#[derive(Debug, Clone, PartialEq, Eq)]
pub enum TimeFormat {
    Rfc2822,
    Rfc3339,
    /// As a format description says, such as `[hour]:[minute]:[second]`.
    Custom(String),
}

/// How the time of a log line is written, with the description as a
/// character sequence.
pub enum TimeFormatView {
    Rfc2822,
    Rfc3339,
    Custom(Seq<char>),
}

impl View for TimeFormat {
    type V = TimeFormatView;

    open spec fn view(&self) -> TimeFormatView {
        match *self {
            TimeFormat::Rfc2822 => TimeFormatView::Rfc2822,
            TimeFormat::Rfc3339 => TimeFormatView::Rfc3339,
            TimeFormat::Custom(s) => TimeFormatView::Custom(s@),
        }
    }
}

/// The time format that is taken where none is set.
pub const DEFAULT_TIME_FORMAT: &'static str = "[hour]:[minute]:[second]";

/// The targets of a filter as character sequences.
pub open spec fn spec_filter_view(filter: Seq<String>) -> Seq<Seq<char>> {
    filter.map_values(|t: String| t@)
}

/// What a logger writes on each line, and how.
#[derive(Debug, Clone, PartialEq, Eq)]
pub struct Config {
    pub time: LevelFilter,
    pub level: LevelFilter,
    pub level_padding: LevelPadding,
    pub thread: LevelFilter,
    pub thread_log_mode: ThreadLogMode,
    pub thread_padding: ThreadPadding,
    pub target: LevelFilter,
    pub target_padding: TargetPadding,
    pub location: LevelFilter,
    pub module: LevelFilter,
    pub time_format: TimeFormat,
    pub time_offset: UtcOffset,
    pub filter_allow: Vec<String>,
    pub filter_ignore: Vec<String>,
    pub level_color: [Option<Color>; 6],
    pub write_log_enable_colors: bool,
}

/// What a logger writes on each line, and how, as character sequences.
pub struct ConfigView {
    pub time: LevelFilter,
    pub level: LevelFilter,
    pub level_padding: LevelPadding,
    pub thread: LevelFilter,
    pub thread_log_mode: ThreadLogMode,
    pub thread_padding: ThreadPadding,
    pub target: LevelFilter,
    pub target_padding: TargetPadding,
    pub location: LevelFilter,
    pub module: LevelFilter,
    pub time_format: TimeFormatView,
    pub time_offset: UtcOffset,
    pub filter_allow: Seq<Seq<char>>,
    pub filter_ignore: Seq<Seq<char>>,
    pub level_color: Seq<Option<Color>>,
    pub write_log_enable_colors: bool,
}

impl View for Config {
    type V = ConfigView;

    open spec fn view(&self) -> ConfigView {
        ConfigView {
            time: self.time,
            level: self.level,
            level_padding: self.level_padding,
            thread: self.thread,
            thread_log_mode: self.thread_log_mode,
            thread_padding: self.thread_padding,
            target: self.target,
            target_padding: self.target_padding,
            location: self.location,
            module: self.module,
            time_format: self.time_format@,
            time_offset: self.time_offset,
            filter_allow: spec_filter_view(self.filter_allow@),
            filter_ignore: spec_filter_view(self.filter_ignore@),
            level_color: self.level_color@,
            write_log_enable_colors: self.write_log_enable_colors,
        }
    }
}

/// The configuration that is taken where nothing is set: level and time are
/// logged from errors on, thread and target from debug lines on, the place
/// in the source from trace lines on, the module never; nothing is padded;
/// the time is universal time, written as hour, minute and second; nothing
/// is filtered; and each level has its color.
pub open spec fn spec_default_config() -> ConfigView {
    ConfigView {
        time: LevelFilter::Error,
        level: LevelFilter::Error,
        level_padding: LevelPadding::Off,
        thread: LevelFilter::Debug,
        thread_log_mode: ThreadLogMode::IDs,
        thread_padding: ThreadPadding::Off,
        target: LevelFilter::Debug,
        target_padding: TargetPadding::Off,
        location: LevelFilter::Trace,
        module: LevelFilter::Off,
        time_format: TimeFormatView::Custom(DEFAULT_TIME_FORMAT@),
        time_offset: UtcOffset::spec_utc(),
        filter_allow: Seq::empty(),
        filter_ignore: Seq::empty(),
        level_color: seq![
            None,
            Some(Color::Red),
            Some(Color::Yellow),
            Some(Color::Blue),
            Some(Color::Cyan),
            Some(Color::White),
        ],
        write_log_enable_colors: false,
    }
}

impl Default for Config {
    fn default() -> (r: Config)
        ensures
            r@ == spec_default_config(),
    {
        let r = Config {
            time: LevelFilter::Error,
            level: LevelFilter::Error,
            level_padding: LevelPadding::Off,
            thread: LevelFilter::Debug,
            thread_log_mode: ThreadLogMode::IDs,
            thread_padding: ThreadPadding::Off,
            target: LevelFilter::Debug,
            target_padding: TargetPadding::Off,
            location: LevelFilter::Trace,
            module: LevelFilter::Off,
            time_format: TimeFormat::Custom(String::from_str(DEFAULT_TIME_FORMAT)),
            time_offset: UtcOffset { hours: 0, minutes: 0, seconds: 0 },
            filter_allow: Vec::new(),
            filter_ignore: Vec::new(),
            write_log_enable_colors: false,
            level_color: [
                None,
                Some(Color::Red),
                Some(Color::Yellow),
                Some(Color::Blue),
                Some(Color::Cyan),
                Some(Color::White),
            ],
        };
        assert(r@.filter_allow =~= Seq::<Seq<char>>::empty());
        assert(r@.filter_ignore =~= Seq::<Seq<char>>::empty());
        assert(r@.level_color =~= spec_default_config().level_color);
        r
    }
}

/// Builder of a `Config`.
#[derive(Debug, Clone, PartialEq, Eq)]
pub struct ConfigBuilder(pub Config);

impl ConfigBuilder {
    /// A builder that holds the configuration that is taken where nothing is
    /// set.
    pub fn new() -> (r: ConfigBuilder)
        ensures
            r.0@ == spec_default_config(),
    {
        ConfigBuilder(Config::default())
    }

    /// Sets from which level on the level itself is logged.
    pub fn set_max_level(&mut self, level: LevelFilter) -> (r: &mut ConfigBuilder)
        ensures
            r.0@ == (ConfigView { level, ..old(self).0@ }),
            *final(self) == *final(r),
    {
        self.0.level = level;
        self
    }

    /// Sets from which level on the time is logged.
    pub fn set_time_level(&mut self, time: LevelFilter) -> (r: &mut ConfigBuilder)
        ensures
            r.0@ == (ConfigView { time, ..old(self).0@ }),
            *final(self) == *final(r),
    {
        self.0.time = time;
        self
    }

    /// Sets from which level on the thread is logged.
    pub fn set_thread_level(&mut self, thread: LevelFilter) -> (r: &mut ConfigBuilder)
        ensures
            r.0@ == (ConfigView { thread, ..old(self).0@ }),
            *final(self) == *final(r),
    {
        self.0.thread = thread;
        self
    }

    /// Sets from which level on the target is logged.
    pub fn set_target_level(&mut self, target: LevelFilter) -> (r: &mut ConfigBuilder)
        ensures
            r.0@ == (ConfigView { target, ..old(self).0@ }),
            *final(self) == *final(r),
    {
        self.0.target = target;
        self
    }

    /// Sets how the target is padded.
    pub fn set_target_padding(&mut self, padding: TargetPadding) -> (r: &mut ConfigBuilder)
        ensures
            r.0@ == (ConfigView { target_padding: padding, ..old(self).0@ }),
            *final(self) == *final(r),
    {
        self.0.target_padding = padding;
        self
    }

    /// Sets from which level on the place in the source is logged.
    pub fn set_location_level(&mut self, location: LevelFilter) -> (r: &mut ConfigBuilder)
        ensures
            r.0@ == (ConfigView { location, ..old(self).0@ }),
            *final(self) == *final(r),
    {
        self.0.location = location;
        self
    }

    /// Sets from which level on the module is logged.
    pub fn set_module_level(&mut self, module: LevelFilter) -> (r: &mut ConfigBuilder)
        ensures
            r.0@ == (ConfigView { module, ..old(self).0@ }),
            *final(self) == *final(r),
    {
        self.0.module = module;
        self
    }

    /// Sets how the level is padded.
    pub fn set_level_padding(&mut self, padding: LevelPadding) -> (r: &mut ConfigBuilder)
        ensures
            r.0@ == (ConfigView { level_padding: padding, ..old(self).0@ }),
            *final(self) == *final(r),
    {
        self.0.level_padding = padding;
        self
    }

    /// Sets how the thread is padded.
    pub fn set_thread_padding(&mut self, padding: ThreadPadding) -> (r: &mut ConfigBuilder)
        ensures
            r.0@ == (ConfigView { thread_padding: padding, ..old(self).0@ }),
            *final(self) == *final(r),
    {
        self.0.thread_padding = padding;
        self
    }

    /// Sets what is logged of the thread.
    pub fn set_thread_mode(&mut self, mode: ThreadLogMode) -> (r: &mut ConfigBuilder)
        ensures
            r.0@ == (ConfigView { thread_log_mode: mode, ..old(self).0@ }),
            *final(self) == *final(r),
    {
        self.0.thread_log_mode = mode;
        self
    }

    /// Sets how far the logged time is from universal time.
    pub fn set_time_offset(&mut self, offset: UtcOffset) -> (r: &mut ConfigBuilder)
        ensures
            r.0@ == (ConfigView { time_offset: offset, ..old(self).0@ }),
            *final(self) == *final(r),
    {
        self.0.time_offset = offset;
        self
    }

    /// Sets whether colors are written to a log file.
    pub fn set_write_log_enable_colors(&mut self, local: bool) -> (r: &mut ConfigBuilder)
        ensures
            r.0@ == (ConfigView { write_log_enable_colors: local, ..old(self).0@ }),
            *final(self) == *final(r),
    {
        self.0.write_log_enable_colors = local;
        self
    }

    /// Sets the color in which a level is printed; `None` stands for the
    /// foreground color of the terminal.
    pub fn set_level_color(&mut self, level: Level, color: Option<Color>) -> (r: &mut ConfigBuilder)
        ensures
            r.0@ == (ConfigView {
                level_color: old(self).0@.level_color.update(level.spec_index() as int, color),
                ..old(self).0@
            }),
            *final(self) == *final(r),
    {
        let index: usize = level.index();
        self.0.level_color.set(index, color);
        self
    }

    /// Sets the time format to what a format description says.
    pub fn set_time_format_custom(&mut self, time_format: &str) -> (r: &mut ConfigBuilder)
        ensures
            r.0@ == (ConfigView {
                time_format: TimeFormatView::Custom(time_format@),
                ..old(self).0@
            }),
            *final(self) == *final(r),
    {
        self.0.time_format = TimeFormat::Custom(String::from_str(time_format));
        self
    }

    /// Sets the time format to that of RFC 2822.
    pub fn set_time_format_rfc2822(&mut self) -> (r: &mut ConfigBuilder)
        ensures
            r.0@ == (ConfigView { time_format: TimeFormatView::Rfc2822, ..old(self).0@ }),
            *final(self) == *final(r),
    {
        self.0.time_format = TimeFormat::Rfc2822;
        self
    }

    /// Sets the time format to that of RFC 3339.
    pub fn set_time_format_rfc3339(&mut self) -> (r: &mut ConfigBuilder)
        ensures
            r.0@ == (ConfigView { time_format: TimeFormatView::Rfc3339, ..old(self).0@ }),
            *final(self) == *final(r),
    {
        self.0.time_format = TimeFormat::Rfc3339;
        self
    }

    /// Adds a target to those that alone are logged. Where there is none,
    /// every target is logged.
    pub fn add_filter_allow_str(&mut self, filter_allow: &'static str) -> (r: &mut ConfigBuilder)
        ensures
            r.0@ == (ConfigView {
                filter_allow: old(self).0@.filter_allow.push(filter_allow@),
                ..old(self).0@
            }),
            *final(self) == *final(r),
    {
        self.add_filter_allow(String::from_str(filter_allow))
    }

    /// Adds a target to those that alone are logged. Where there is none,
    /// every target is logged.
    pub fn add_filter_allow(&mut self, filter_allow: String) -> (r: &mut ConfigBuilder)
        ensures
            r.0@ == (ConfigView {
                filter_allow: old(self).0@.filter_allow.push(filter_allow@),
                ..old(self).0@
            }),
            *final(self) == *final(r),
    {
        self.0.filter_allow.push(filter_allow);
        assert(self.0@.filter_allow =~= old(self).0@.filter_allow.push(filter_allow@));
        self
    }

    /// Empties the list of targets that alone are logged.
    pub fn clear_filter_allow(&mut self) -> (r: &mut ConfigBuilder)
        ensures
            r.0@ == (ConfigView { filter_allow: Seq::empty(), ..old(self).0@ }),
            *final(self) == *final(r),
    {
        self.0.filter_allow = Vec::new();
        assert(self.0@.filter_allow =~= Seq::<Seq<char>>::empty());
        self
    }

    /// Adds a target to those that are not logged.
    pub fn add_filter_ignore_str(&mut self, filter_ignore: &'static str) -> (r: &mut ConfigBuilder)
        ensures
            r.0@ == (ConfigView {
                filter_ignore: old(self).0@.filter_ignore.push(filter_ignore@),
                ..old(self).0@
            }),
            *final(self) == *final(r),
    {
        self.add_filter_ignore(String::from_str(filter_ignore))
    }

    /// Adds a target to those that are not logged.
    pub fn add_filter_ignore(&mut self, filter_ignore: String) -> (r: &mut ConfigBuilder)
        ensures
            r.0@ == (ConfigView {
                filter_ignore: old(self).0@.filter_ignore.push(filter_ignore@),
                ..old(self).0@
            }),
            *final(self) == *final(r),
    {
        self.0.filter_ignore.push(filter_ignore);
        assert(self.0@.filter_ignore =~= old(self).0@.filter_ignore.push(filter_ignore@));
        self
    }

    /// Empties the list of targets that are not logged.
    pub fn clear_filter_ignore(&mut self) -> (r: &mut ConfigBuilder)
        ensures
            r.0@ == (ConfigView { filter_ignore: Seq::empty(), ..old(self).0@ }),
            *final(self) == *final(r),
    {
        self.0.filter_ignore = Vec::new();
        assert(self.0@.filter_ignore =~= Seq::<Seq<char>>::empty());
        self
    }

    /// The configuration as it was built so far.
    pub fn build(&mut self) -> (r: Config)
        ensures
            r@ == old(self).0@,
            *final(self) == *old(self),
    {
        Config {
            time: self.0.time,
            level: self.0.level,
            level_padding: self.0.level_padding,
            thread: self.0.thread,
            thread_log_mode: self.0.thread_log_mode,
            thread_padding: self.0.thread_padding,
            target: self.0.target,
            target_padding: self.0.target_padding,
            location: self.0.location,
            module: self.0.module,
            time_format: match &self.0.time_format {
                TimeFormat::Rfc2822 => TimeFormat::Rfc2822,
                TimeFormat::Rfc3339 => TimeFormat::Rfc3339,
                TimeFormat::Custom(description) => TimeFormat::Custom(description.clone()),
            },
            time_offset: self.0.time_offset,
            filter_allow: copy_of_filter(&self.0.filter_allow),
            filter_ignore: copy_of_filter(&self.0.filter_ignore),
            level_color: self.0.level_color,
            write_log_enable_colors: self.0.write_log_enable_colors,
        }
    }
}

impl Default for ConfigBuilder {
    fn default() -> (r: ConfigBuilder)
        ensures
            r.0@ == spec_default_config(),
    {
        ConfigBuilder::new()
    }
}

/// A second list of the same targets.
fn copy_of_filter(filter: &Vec<String>) -> (r: Vec<String>)
    ensures
        spec_filter_view(r@) == spec_filter_view(filter@),
{
    let mut r: Vec<String> = Vec::new();
    let mut i: usize = 0;
    assert(spec_filter_view(r@) =~= spec_filter_view(filter@).take(0));
    while i < filter.len()
        invariant
            i <= filter.len(),
            spec_filter_view(filter@).len() == filter.len(),
            spec_filter_view(r@) == spec_filter_view(filter@).take(i as int),
        decreases filter.len() - i,
    {
        let ghost before = r@;
        let copy = filter[i].clone();
        r.push(copy);
        assert(spec_filter_view(r@) =~= spec_filter_view(before).push(copy@));
        assert(spec_filter_view(filter@).take(i as int).push(spec_filter_view(filter@)[i as int])
            =~= spec_filter_view(filter@).take(i + 1));
        i += 1;
    }
    assert(spec_filter_view(filter@).take(filter@.len() as int) =~= spec_filter_view(filter@));
    r
}

} // verus!
