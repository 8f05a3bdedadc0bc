use mux::command::{set_env_vars, CommandDefaults};
use mux::domain::LocalDomain;
use mux::error::MuxError;
use mux::ids::IdAllocator;
use mux::registry::Mux;
use mux::spawn::{
    active_pane_of, assemble_command, resolve, resolve_cwd, resolve_domain, SpawnCommand,
    SpawnTabDomain, SpawnWhere,
};
use portable_pty::CommandBuilder;

fn request(args: Option<Vec<&str>>, vars: Vec<(&str, &str)>) -> SpawnCommand {
    SpawnCommand {
        args: args.map(|a| a.iter().map(|s| s.to_string()).collect()),
        cwd: None,
        set_environment_variables: vars
            .iter()
            .map(|(k, v)| (k.to_string(), v.to_string()))
            .collect(),
        domain: SpawnTabDomain::DefaultDomain,
    }
}

fn local_mux() -> Mux<LocalDomain<()>> {
    let mut ids = IdAllocator::new();
    Mux::new(LocalDomain::with_pty_system("local", (), &mut ids).unwrap())
}

#[test]
fn request_without_arguments_assembles_no_command() {
    assert!(assemble_command(&request(None, vec![("A", "1")]), &None).is_none());
    assert!(assemble_command(&request(None, vec![]), &Some("/tmp".to_string())).is_none());
}

#[test]
fn assembled_command_holds_arguments_variables_and_directory() {
    let spawn = request(Some(vec!["make", "-j4"]), vec![("MUX_T_X", "1"), ("MUX_T_Y", "2")]);
    let command = assemble_command(&spawn, &Some("/src".to_string())).unwrap();
    assert_eq!(command.get_argv().len(), 2);
    assert_eq!(command.get_argv()[0].to_str(), Some("make"));
    assert_eq!(command.get_argv()[1].to_str(), Some("-j4"));
    assert_eq!(command.get_env("MUX_T_X").unwrap().to_str(), Some("1"));
    assert_eq!(command.get_env("MUX_T_Y").unwrap().to_str(), Some("2"));
    assert_eq!(command.get_cwd().unwrap().to_str(), Some("/src"));
    let bare = assemble_command(&spawn, &None).unwrap();
    assert_eq!(bare.get_cwd(), None);
}

#[test]
fn later_variable_replaces_earlier_one() {
    let mut command = CommandBuilder::new("true");
    let vars = vec![
        ("MUX_T_V".to_string(), "old".to_string()),
        ("MUX_T_W".to_string(), "kept".to_string()),
        ("MUX_T_V".to_string(), "new".to_string()),
    ];
    set_env_vars(&mut command, &vars);
    assert_eq!(command.get_env("MUX_T_V").unwrap().to_str(), Some("new"));
    assert_eq!(command.get_env("MUX_T_W").unwrap().to_str(), Some("kept"));
    assert_eq!(command.get_argv().len(), 1);
    assert_eq!(command.get_cwd(), None);
}

#[test]
fn defaults_decorate_and_build() {
    let defaults = CommandDefaults {
        default_prog: Some(vec!["zsh".to_string()]),
        environment: vec![("MUX_T_TERM".to_string(), "vt100".to_string())],
    };
    let mut command = CommandBuilder::new("top");
    command.cwd("/var");
    defaults.apply_cmd_defaults(&mut command);
    assert_eq!(command.get_argv()[0].to_str(), Some("top"));
    assert_eq!(command.get_cwd().unwrap().to_str(), Some("/var"));
    assert_eq!(command.get_env("MUX_T_TERM").unwrap().to_str(), Some("vt100"));
    let built = defaults.build_prog();
    assert_eq!(built.get_argv().len(), 1);
    assert_eq!(built.get_argv()[0].to_str(), Some("zsh"));
    assert_eq!(built.get_cwd(), None);
    assert_eq!(built.get_env("MUX_T_TERM").unwrap().to_str(), Some("vt100"));
    let plain = CommandDefaults { default_prog: None, environment: Vec::new() };
    assert!(plain.build_prog().is_default_prog());
}

#[test]
fn resolution_on_an_empty_registry() {
    let mut mux = local_mux();
    assert_eq!(
        resolve_domain(&mux, &SpawnTabDomain::DefaultDomain, SpawnWhere::NewTab, 0),
        Ok(0)
    );
    assert_eq!(
        resolve_domain(&mux, &SpawnTabDomain::CurrentPaneDomain, SpawnWhere::NewWindow, 0),
        Ok(0)
    );
    assert_eq!(
        resolve_domain(&mux, &SpawnTabDomain::CurrentPaneDomain, SpawnWhere::NewTab, 0),
        Err(MuxError::NoTabs)
    );
    assert_eq!(
        resolve_domain(&mux, &SpawnTabDomain::DomainName("x".to_string()), SpawnWhere::NewTab, 0),
        Err(MuxError::UnknownDomainName)
    );
    assert_eq!(
        resolve_domain(&mux, &SpawnTabDomain::DomainId(5), SpawnWhere::NewTab, 0),
        Err(MuxError::UnknownDomainId(5))
    );
    assert!(matches!(active_pane_of(&mux, 0), Err(MuxError::NoTabs)));
    let spawn = request(None, vec![]);
    assert_eq!(resolve_cwd(&mux, &spawn, SpawnWhere::NewTab, 0), Ok(None));
    let mut strict = request(None, vec![]);
    strict.domain = SpawnTabDomain::CurrentPaneDomain;
    assert_eq!(resolve_cwd(&mux, &strict, SpawnWhere::NewTab, 0), Err(MuxError::NoTabs));
    assert_eq!(resolve_cwd(&mux, &strict, SpawnWhere::NewWindow, 0), Ok(None));
    strict.cwd = Some(b"/opt".to_vec());
    assert_eq!(resolve_cwd(&mux, &strict, SpawnWhere::NewTab, 0), Ok(Some("/opt".to_string())));
    let dispatch = resolve(&mut mux, &spawn, SpawnWhere::NewWindow, 9).unwrap();
    assert_eq!(dispatch.domain, 0);
    assert_eq!(dispatch.window, 0);
    assert!(dispatch.command.is_none());
    assert_eq!(dispatch.cwd, None);
    assert_eq!(dispatch.split, None);
    assert_eq!(mux.window_count(), 1);
}
