use minecraft_server_manager::config::{launch_args, ServerConfig};
use minecraft_server_manager::controller::ServerController;
use minecraft_server_manager::properties::{
    build_properties, build_property_line, parse_properties, parse_property_line,
};
use minecraft_server_manager::status::Status;
use minecraft_server_manager::supervisor::Supervisor;
use minecraft_server_manager::text::split_lines;

fn line(s: &str) -> Vec<u8> {
    s.as_bytes().to_vec()
}

#[test]
fn default_config_values() {
    let cfg = ServerConfig::default();
    assert_eq!(cfg.server_dir, "/home/maksym/server");
    assert_eq!(cfg.jar, "server.jar");
    assert_eq!(cfg.java.path, "java");
    assert_eq!(cfg.java.min_ram_mb, 1024);
    assert_eq!(cfg.java.max_ram_mb, 4096);
    assert!(cfg.java.args.is_empty());
    assert_eq!(cfg.ui.max_players, 20);
    assert!(cfg.ui.auto_scroll_console);
}

#[test]
fn launch_args_spell_out_the_java_invocation() {
    let args = launch_args(&"4096M".to_string());
    assert_eq!(args, vec!["-Xmx4096M", "-jar", "server.jar", "nogui"]);
}

#[test]
fn property_line_splits_at_the_first_equals() {
    assert_eq!(
        parse_property_line(&line("motd=A Minecraft Server")),
        Some((line("motd"), line("A Minecraft Server"))),
    );
    assert_eq!(parse_property_line(&line("a=b=c")), Some((line("a"), line("b=c"))));
    assert_eq!(parse_property_line(&line("=v")), Some((line(""), line("v"))));
    assert_eq!(parse_property_line(&line("# a comment")), None);
    assert_eq!(parse_property_line(&line("#commented=out")), None);
    assert_eq!(parse_property_line(&line("no separator")), None);
    assert_eq!(parse_property_line(&line("")), None);
}

#[test]
fn properties_round_trip_through_text() {
    let text = "#Minecraft server properties\nmotd=Hi there\nmax-players=20\n\npvp=true\n";
    let parsed = parse_properties(&split_lines(&line(text)));
    assert_eq!(
        parsed,
        vec![
            (line("motd"), line("Hi there")),
            (line("max-players"), line("20")),
            (line("pvp"), line("true")),
        ],
    );
    let rebuilt = build_properties(&parsed);
    assert_eq!(rebuilt, line("motd=Hi there\nmax-players=20\npvp=true\n"));
    // Rebuilding drops only what carried no pair; what was rebuilt
    // reads back unchanged.
    assert_eq!(parse_properties(&split_lines(&rebuilt)), parsed);
}

#[test]
fn properties_with_equal_keys_keep_both_in_order() {
    let parsed = parse_properties(&split_lines(&line("k=1\nk=2\n")));
    assert_eq!(parsed, vec![(line("k"), line("1")), (line("k"), line("2"))]);
}

#[test]
fn one_property_line_is_built_exactly() {
    assert_eq!(build_property_line(&line("pvp"), &line("true")), line("pvp=true\n"));
}

#[test]
fn split_lines_handles_separators() {
    assert_eq!(split_lines(&line("")), Vec::<Vec<u8>>::new());
    assert_eq!(split_lines(&line("one")), vec![line("one")]);
    assert_eq!(split_lines(&line("one\ntwo")), vec![line("one"), line("two")]);
    assert_eq!(split_lines(&line("one\ntwo\n")), vec![line("one"), line("two")]);
    assert_eq!(split_lines(&line("\n")), vec![line("")]);
    assert_eq!(split_lines(&line("a\n\nb")), vec![line("a"), line(""), line("b")]);
}

#[test]
fn controller_interface_drives_the_supervisor() {
    let mut sup = Supervisor::new();
    assert_eq!(ServerController::send_cmd(&mut sup, "list"), Err(
        "operation invalid in current status".to_string(),
    ));
    assert_eq!(ServerController::start(&mut sup), Ok(()));
    assert_eq!(sup.get_status(), Status::Starting);
    assert!(ServerController::start(&mut sup).is_err());
    sup.spawn_succeeded(5).unwrap();
    assert_eq!(ServerController::send_cmd(&mut sup, "list"), Ok(()));
    assert_eq!(ServerController::stop(&mut sup), Ok(()));
    assert_eq!(sup.get_status(), Status::Stopping);
    assert!(ServerController::stop(&mut sup).is_err());
}
