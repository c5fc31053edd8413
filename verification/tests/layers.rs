use fizzy::cfg::{
    candidate_path, cfg_extensions, discover_cfg_path, env_layer_from_raw, first_present,
    parse_bool_flag, parse_verbosity, read_fizzy_cfg, str_equal, FizzyCfg, FizzyEnvVars,
};
use fizzy::cli::{is_valid_cfg_file, CliArgs};
use fizzy::resolve::{resolve, RawLayer};

#[test]
fn parse_verbosity_accepts_plain_numbers() {
    assert_eq!(parse_verbosity("0"), Some(0));
    assert_eq!(parse_verbosity("7"), Some(7));
    assert_eq!(parse_verbosity("42"), Some(42));
    assert_eq!(parse_verbosity("007"), Some(7));
}

#[test]
fn parse_verbosity_accepts_u64_max() {
    assert_eq!(parse_verbosity("18446744073709551615"), Some(u64::MAX));
}

#[test]
fn parse_verbosity_rejects_overflow() {
    assert_eq!(parse_verbosity("18446744073709551616"), None);
    assert_eq!(parse_verbosity("99999999999999999999999"), None);
}

#[test]
fn parse_verbosity_rejects_malformed() {
    assert_eq!(parse_verbosity(""), None);
    assert_eq!(parse_verbosity("notanumber"), None);
    assert_eq!(parse_verbosity("1a"), None);
    assert_eq!(parse_verbosity("-1"), None);
    assert_eq!(parse_verbosity(" 2"), None);
}

#[test]
fn parse_bool_flag_exact_values_only() {
    assert_eq!(parse_bool_flag("true"), Some(true));
    assert_eq!(parse_bool_flag("false"), Some(false));
    assert_eq!(parse_bool_flag(""), None);
    assert_eq!(parse_bool_flag("TRUE"), None);
    assert_eq!(parse_bool_flag("yes"), None);
    assert_eq!(parse_bool_flag("1"), None);
}

#[test]
fn str_equal_compares_contents() {
    assert!(str_equal("", ""));
    assert!(str_equal("abc", "abc"));
    assert!(!str_equal("abc", "abd"));
    assert!(!str_equal("abc", "ab"));
}

#[test]
fn malformed_env_verbosity_recovers() {
    let env = env_layer_from_raw(None, Some("notanumber".to_string()), None);
    assert_eq!(env.verbosity_level, None);
    let file = RawLayer {
        cfg_file_path: None,
        verbosity_level: Some(5),
        simulate: None,
    };
    let r = resolve(RawLayer::empty(), env, file);
    assert_eq!(r.verbosity_level, 5);

    let env2 = env_layer_from_raw(None, Some("notanumber".to_string()), None);
    let r2 = resolve(RawLayer::empty(), env2, RawLayer::empty());
    assert_eq!(r2.verbosity_level, 0);
}

#[test]
fn env_layer_coerces_each_field() {
    let env = env_layer_from_raw(
        Some("/etc/app/cfg.toml".to_string()),
        Some("3".to_string()),
        Some("true".to_string()),
    );
    assert_eq!(env.cfg_file_path.as_deref(), Some("/etc/app/cfg.toml"));
    assert_eq!(env.verbosity_level, Some(3));
    assert_eq!(env.simulate, Some(true));

    let empty = env_layer_from_raw(None, None, None);
    assert_eq!(empty, RawLayer::empty());
}

#[test]
fn extensions_canonical_order() {
    let exts = cfg_extensions();
    assert_eq!(exts, vec!["json", "toml", "yaml", "yml"]);
}

#[test]
fn candidate_path_appends_extension() {
    assert_eq!(candidate_path("dir/base", "json"), "dir/base.json");
    assert_eq!(candidate_path("base", "yml"), "base.yml");
}

#[test]
fn first_present_picks_least_index() {
    assert_eq!(first_present(&vec![false, true, true, false]), Some(1));
    assert_eq!(first_present(&vec![true, true, true, true]), Some(0));
    assert_eq!(first_present(&vec![false, false, false, false]), None);
    assert_eq!(first_present(&vec![]), None);
}

#[test]
fn discovery_tie_break_prefers_json() {
    // Both base.json and base.toml exist: the JSON candidate is chosen.
    let r = discover_cfg_path("base", &vec![true, true, false, false]);
    assert_eq!(r.as_deref(), Some("base.json"));
    // Deterministic: the same inputs pick the same candidate every time.
    let again = discover_cfg_path("base", &vec![true, true, false, false]);
    assert_eq!(again.as_deref(), Some("base.json"));
}

#[test]
fn discovery_falls_back_in_order() {
    assert_eq!(
        discover_cfg_path("b", &vec![false, true, true, true]).as_deref(),
        Some("b.toml")
    );
    assert_eq!(
        discover_cfg_path("b", &vec![false, false, true, true]).as_deref(),
        Some("b.yaml")
    );
    assert_eq!(
        discover_cfg_path("b", &vec![false, false, false, true]).as_deref(),
        Some("b.yml")
    );
    assert_eq!(discover_cfg_path("b", &vec![false, false, false, false]), None);
}

#[test]
fn read_fizzy_cfg_yields_empty_layer() {
    let cfg = read_fizzy_cfg(Some("anywhere.toml".to_string()));
    assert_eq!(cfg.cfg_file_path, None);
    assert_eq!(cfg.verbosity_level, None);
    assert_eq!(cfg.simulate, None);
    let cfg2 = read_fizzy_cfg(None);
    assert_eq!(cfg2.into_layer(), RawLayer::empty());
}

#[test]
fn is_valid_cfg_file_reports_missing_file() {
    assert_eq!(is_valid_cfg_file(true), Ok(()));
    assert_eq!(
        is_valid_cfg_file(false),
        Err("the configuration file doesn't exist".to_string())
    );
}

#[test]
fn cli_args_into_layer_maps_unused_flags_to_absent() {
    let args = CliArgs {
        cfg_file_path: None,
        verbosity_level: 0,
        simulate: false,
    };
    assert_eq!(args.into_layer(), RawLayer::empty());

    let args = CliArgs {
        cfg_file_path: Some("c.json".to_string()),
        verbosity_level: 2,
        simulate: true,
    };
    let layer = args.into_layer();
    assert_eq!(layer.cfg_file_path.as_deref(), Some("c.json"));
    assert_eq!(layer.verbosity_level, Some(2));
    assert_eq!(layer.simulate, Some(true));
}

#[test]
fn env_vars_into_layer_keeps_set_fields() {
    let vars = FizzyEnvVars {
        cfg_file_path: "/tmp/f.yaml".to_string(),
        verbosity_level: Some(1),
        simulate: None,
    };
    let layer = vars.into_layer();
    assert_eq!(layer.cfg_file_path.as_deref(), Some("/tmp/f.yaml"));
    assert_eq!(layer.verbosity_level, Some(1));
    assert_eq!(layer.simulate, None);
}

#[test]
fn file_layer_into_layer_keeps_fields() {
    let cfg = FizzyCfg {
        cfg_file_path: Some("x.json".to_string()),
        verbosity_level: None,
        simulate: Some(true),
    };
    let layer = cfg.into_layer();
    assert_eq!(layer.cfg_file_path.as_deref(), Some("x.json"));
    assert_eq!(layer.verbosity_level, None);
    assert_eq!(layer.simulate, Some(true));
}
