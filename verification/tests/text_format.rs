use colony_engine::kinds::Resource;
use colony_engine::structures::{Base, Mine, PowerPlant, Storage, Structure};
use colony_engine::text::{
    format_battery, format_energy_io, format_resource, format_resource_capacity,
    get_structure_symbol, pad_num_left, pad_num_right, u64_to_string, BlockType,
};
use colony_engine::util::{format_welcome_message, get_log, Config, Tick};

#[test]
fn decimal_rendering() {
    assert_eq!(u64_to_string(0), "0");
    assert_eq!(u64_to_string(7), "7");
    assert_eq!(u64_to_string(42), "42");
    assert_eq!(u64_to_string(1000), "1000");
    assert_eq!(u64_to_string(u64::MAX), "18446744073709551615");
}

#[test]
fn numeric_padding() {
    assert_eq!(pad_num_left(42, 8), "      42");
    assert_eq!(pad_num_right(42, 8), "42      ");
    assert_eq!(pad_num_left(12345678, 8), "12345678");
    assert_eq!(pad_num_left(123456789, 8), "123456789");
    assert_eq!(pad_num_right(0, 3), "0  ");
}

#[test]
fn stat_lines() {
    let mine = Mine::new(Resource::Iron);
    assert_eq!(format_resource(mine.resource()), "Resource: : Iron");

    let base = Base::new();
    assert_eq!(format_energy_io(base.blueprint()), "Energy I/O (       0 / 50      )");
    assert_eq!(format_battery(base.blueprint()), "Battery    (       0 / 1000    )");
    assert_eq!(
        format_resource_capacity(base.blueprint(), &Resource::Iron),
        "Iron       (       0 / 1000    )"
    );
}

#[test]
fn structure_symbols() {
    assert_eq!(get_structure_symbol(&Structure::Base { structure: Base::new() }), 'B');
    assert_eq!(
        get_structure_symbol(&Structure::PowerPlant { structure: PowerPlant::new() }),
        'P'
    );
    assert_eq!(
        get_structure_symbol(&Structure::Mine { structure: Mine::new(Resource::Iron) }),
        'M'
    );
    assert_eq!(
        get_structure_symbol(&Structure::Storage { structure: Storage::new(vec![], vec![]) }),
        'S'
    );
    assert_eq!(BlockType::Selected.symbol(), '*');
    assert_eq!(BlockType::Light.symbol(), '.');
}

#[test]
fn log_lines_carry_an_eight_character_clock() {
    let line = get_log(String::from("hello"));
    // "[HH:MM:SS] hello\n"
    assert_eq!(line.len(), 1 + 8 + 2 + 5 + 1);
    assert!(line.starts_with('['));
    assert_eq!(&line[9..11], "] ");
    assert!(line.ends_with("hello\n"));
    let clock = &line[1..9];
    assert_eq!(clock.as_bytes()[2], b':');
    assert_eq!(clock.as_bytes()[5], b':');
}

#[test]
fn welcome_message_is_a_log_line() {
    let line = format_welcome_message();
    assert!(line.starts_with('['));
    assert!(line.contains("Welcome!"));
    assert!(line.contains("Use ESC to exit the game."));
    assert!(line.ends_with('\n'));
}

#[test]
fn tick_timing() {
    let mut tick = Tick::new();
    assert_eq!(tick.delta(), 0);
    tick.update(100);
    assert_eq!(tick.delta(), 100);
    tick.update(340);
    assert_eq!(tick.delta(), 240);
}

#[test]
fn default_config_rates() {
    let config = Config::default();
    assert_eq!(config.update_rate_ms, 240);
    assert_eq!(config.draw_rate_ms, 30);
    assert_eq!(config.input_rate_ms, 10);
}
