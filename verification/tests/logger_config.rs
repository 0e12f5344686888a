use tui_editor::{
    Color, Config, ConfigBuilder, Level, LevelFilter, LevelPadding, TargetPadding, ThreadLogMode,
    ThreadPadding, TimeFormat, UtcOffset, DEFAULT_TIME_FORMAT,
};

#[test]
fn default_config() {
    let config = Config::default();
    assert_eq!(config.time, LevelFilter::Error);
    assert_eq!(config.level, LevelFilter::Error);
    assert_eq!(config.level_padding, LevelPadding::Off);
    assert_eq!(config.thread, LevelFilter::Debug);
    assert_eq!(config.thread_log_mode, ThreadLogMode::IDs);
    assert_eq!(config.thread_padding, ThreadPadding::Off);
    assert_eq!(config.target, LevelFilter::Debug);
    assert_eq!(config.target_padding, TargetPadding::Off);
    assert_eq!(config.location, LevelFilter::Trace);
    assert_eq!(config.module, LevelFilter::Off);
    assert_eq!(config.time_format, TimeFormat::Custom("[hour]:[minute]:[second]".to_string()));
    assert_eq!(DEFAULT_TIME_FORMAT, "[hour]:[minute]:[second]");
    assert_eq!(config.time_offset, UtcOffset { hours: 0, minutes: 0, seconds: 0 });
    assert!(config.filter_allow.is_empty());
    assert!(config.filter_ignore.is_empty());
    assert!(!config.write_log_enable_colors);
    assert_eq!(
        config.level_color,
        [
            None,
            Some(Color::Red),
            Some(Color::Yellow),
            Some(Color::Blue),
            Some(Color::Cyan),
            Some(Color::White),
        ]
    );
    assert_eq!(ConfigBuilder::new().build(), config);
    assert_eq!(ConfigBuilder::default().build(), config);
}

#[test]
fn setters_set_one_field_each_and_chain() {
    let config = ConfigBuilder::new()
        .set_max_level(LevelFilter::Warn)
        .set_time_level(LevelFilter::Off)
        .set_thread_level(LevelFilter::Info)
        .set_target_level(LevelFilter::Trace)
        .set_target_padding(TargetPadding::Left(7))
        .set_location_level(LevelFilter::Debug)
        .set_module_level(LevelFilter::Error)
        .set_level_padding(LevelPadding::Right)
        .set_thread_padding(ThreadPadding::Right(3))
        .set_thread_mode(ThreadLogMode::Both)
        .set_level_color(Level::Info, Some(Color::Rgb(1, 2, 3)))
        .set_level_color(Level::Error, None)
        .set_time_format_custom("[hour]")
        .set_time_offset(UtcOffset { hours: 5, minutes: 30, seconds: 0 })
        .set_write_log_enable_colors(true)
        .build();
    let expected = Config {
        time: LevelFilter::Off,
        level: LevelFilter::Warn,
        level_padding: LevelPadding::Right,
        thread: LevelFilter::Info,
        thread_log_mode: ThreadLogMode::Both,
        thread_padding: ThreadPadding::Right(3),
        target: LevelFilter::Trace,
        target_padding: TargetPadding::Left(7),
        location: LevelFilter::Debug,
        module: LevelFilter::Error,
        time_format: TimeFormat::Custom("[hour]".to_string()),
        time_offset: UtcOffset { hours: 5, minutes: 30, seconds: 0 },
        filter_allow: vec![],
        filter_ignore: vec![],
        level_color: [
            None,
            None,
            Some(Color::Yellow),
            Some(Color::Rgb(1, 2, 3)),
            Some(Color::Cyan),
            Some(Color::White),
        ],
        write_log_enable_colors: true,
    };
    assert_eq!(config, expected);
    let mut builder = ConfigBuilder::new();
    builder.set_time_format_rfc2822();
    assert_eq!(builder.build().time_format, TimeFormat::Rfc2822);
    builder.set_time_format_rfc3339();
    assert_eq!(builder.build().time_format, TimeFormat::Rfc3339);
    assert_eq!(
        [Level::Error, Level::Warn, Level::Info, Level::Debug, Level::Trace].map(Level::index),
        [1, 2, 3, 4, 5]
    );
}

#[test]
fn filters_grow_in_order_and_clear() {
    let mut builder = ConfigBuilder::new();
    builder
        .add_filter_allow_str("tokio::uds")
        .add_filter_allow(format!("{}::{}", "tokio", "net"))
        .add_filter_ignore_str("hyper")
        .add_filter_ignore("mio".to_string());
    let config = builder.build();
    assert_eq!(config.filter_allow, vec!["tokio::uds".to_string(), "tokio::net".to_string()]);
    assert_eq!(config.filter_ignore, vec!["hyper".to_string(), "mio".to_string()]);
    builder.clear_filter_allow();
    assert!(builder.build().filter_allow.is_empty());
    assert_eq!(builder.build().filter_ignore.len(), 2);
    builder.clear_filter_ignore();
    assert!(builder.build().filter_ignore.is_empty());
}
