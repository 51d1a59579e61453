use flightcore_ng_core::evaluate::{
    evaluate_config, evaluate_flavor, evaluate_launch_args, evaluate_launch_method,
    evaluate_profile, evaluate_profiles, evaluate_sources_ref, evaluate_titanfall2_path,
    ConfigError,
};
use flightcore_ng_core::nix::{select, NixKind, NixValue};
use flightcore_ng_core::settings::{LaunchMethod, NorthstarSource};

fn val(shown: &str, kind: NixKind) -> NixValue {
    NixValue { shown: shown.to_string(), kind }
}

fn string(s: &str) -> NixValue {
    val(s, NixKind::Str(s.to_string()))
}

fn path(p: &str) -> NixValue {
    val(p, NixKind::Path(p.to_string()))
}

fn list(items: Vec<NixValue>) -> NixValue {
    val("[ ... ]", NixKind::List(items))
}

fn attrs(entries: Vec<(&str, NixValue)>) -> Vec<(String, NixValue)> {
    entries.into_iter().map(|(k, v)| (k.to_string(), v)).collect()
}

fn set(entries: Vec<(&str, NixValue)>) -> NixValue {
    val("{ ... }", NixKind::Attrs(attrs(entries)))
}

fn flavor(ty: &str) -> NixValue {
    set(vec![("_type", val(ty, NixKind::Other))])
}

#[test]
fn select_takes_the_first_entry_with_the_name() {
    let a = attrs(vec![("x", string("one")), ("y", string("two")), ("x", string("three"))]);
    assert_eq!(select(&a, "x").unwrap().shown, "one");
    assert_eq!(select(&a, "y").unwrap().shown, "two");
    assert!(select(&a, "z").is_none());
}

#[test]
fn titanfall_path_must_be_a_path() {
    assert_eq!(
        evaluate_titanfall2_path(&attrs(vec![("titanfall2-path", path("/tf2"))])),
        Some(Ok("/tf2".to_string()))
    );
    assert_eq!(
        evaluate_titanfall2_path(&attrs(vec![("titanfall2-path", string("/tf2"))])),
        Some(Err(ConfigError::BadTitanfallPath))
    );
    assert_eq!(evaluate_titanfall2_path(&Vec::new()), None);
}

#[test]
fn launch_method_names_ignore_case() {
    let m = |s: &str| evaluate_launch_method(&attrs(vec![("launch-method", val(s, NixKind::Other))]));
    assert_eq!(m("STEAM"), LaunchMethod::Steam);
    assert_eq!(m("Wine"), LaunchMethod::Wine);
    assert_eq!(m("direct"), LaunchMethod::Direct);
    assert_eq!(m("any"), LaunchMethod::Any);
    assert_eq!(m("telnet"), LaunchMethod::Any);
    assert_eq!(evaluate_launch_method(&Vec::new()), LaunchMethod::Any);
}

#[test]
fn flavors_are_read_from_their_type() {
    let f = |v: NixValue| evaluate_flavor(&attrs(vec![("flavor", v)]));
    assert!(matches!(f(flavor("Stable")), Ok(NorthstarSource::Stable)));
    assert!(matches!(f(flavor("nightly")), Ok(NorthstarSource::Nightly)));
    assert!(matches!(f(flavor("ION")), Ok(NorthstarSource::Ion)));
    assert!(matches!(f(flavor("overlayed")), Ok(NorthstarSource::Overlayed)));
    assert!(matches!(f(flavor("beta")), Err(ConfigError::BadFlavor)));
    assert!(matches!(f(set(Vec::new())), Err(ConfigError::BadFlavor)));
    assert!(matches!(f(string("stable")), Err(ConfigError::FlavorNotAttrs)));
    assert!(matches!(evaluate_flavor(&Vec::new()), Err(ConfigError::MissingFlavor)));
}

#[test]
fn version_flavor_parses_its_version() {
    let v = set(vec![
        ("_type", val("version", NixKind::Other)),
        ("version", val("1.25.3-RC.1", NixKind::Other)),
    ]);
    match evaluate_flavor(&attrs(vec![("flavor", v)])) {
        Ok(NorthstarSource::Version(s)) => {
            assert_eq!((s.major, s.minor, s.patch), (1, 25, 3));
            assert_eq!(s.pre, "rc.1");
            assert_eq!(s.to_text(), "1.25.3-rc.1");
        }
        _ => panic!("expected a version"),
    }
    let bad = set(vec![("_type", val("version", NixKind::Other)), ("version", val("one", NixKind::Other))]);
    assert!(matches!(evaluate_flavor(&attrs(vec![("flavor", bad)])), Err(ConfigError::BadVersion)));
    let missing = set(vec![("_type", val("version", NixKind::Other))]);
    assert!(matches!(evaluate_flavor(&attrs(vec![("flavor", missing)])), Err(ConfigError::BadVersion)));
}

#[test]
fn string_lists_are_checked() {
    let a = attrs(vec![("sources", list(vec![string("a"), string("b")]))]);
    assert_eq!(evaluate_sources_ref(&a), Ok(vec!["a".to_string(), "b".to_string()]));
    assert_eq!(evaluate_sources_ref(&Vec::new()), Ok(Vec::new()));
    assert_eq!(
        evaluate_sources_ref(&attrs(vec![("sources", string("a"))])),
        Err(ConfigError::SourcesNotList)
    );
    assert_eq!(
        evaluate_sources_ref(&attrs(vec![("sources", list(vec![string("a"), path("/b")]))])),
        Err(ConfigError::SourcesNotStrings)
    );
    assert_eq!(
        evaluate_launch_args(&attrs(vec![("launch-args", list(vec![path("/b")]))])),
        Err(ConfigError::LaunchArgsNotStrings)
    );
    assert_eq!(
        evaluate_launch_args(&attrs(vec![("launch-args", path("/b"))])),
        Err(ConfigError::LaunchArgsNotList)
    );
}

#[test]
fn a_profile_is_read_with_the_global_path_as_fallback() {
    let a = attrs(vec![
        ("name", val("dev", NixKind::Other)),
        ("flavor", flavor("nightly")),
        ("launch-args", list(vec![string("-x")])),
        ("ignore-global-launch-args", val("true", NixKind::Bool(true))),
        ("launch-method", val("wine", NixKind::Other)),
    ]);
    let p = evaluate_profile(&a, "/global").unwrap();
    assert_eq!(p.name, "dev");
    assert_eq!(p.titanfall2_path, "/global");
    assert!(matches!(p.flavor, NorthstarSource::Nightly));
    assert!(p.sources.is_empty());
    assert_eq!(p.launch_args, vec!["-x".to_string()]);
    assert!(p.ignore_global_launch_args);
    assert_eq!(p.launch_method, LaunchMethod::Wine);
    assert!(matches!(evaluate_profile(&attrs(vec![("flavor", flavor("stable"))]), "/g"), Err(ConfigError::MissingName)));
    let own = attrs(vec![("name", string("x")), ("titanfall2-path", path("/own")), ("flavor", flavor("ion"))]);
    assert_eq!(evaluate_profile(&own, "/global").unwrap().titanfall2_path, "/own");
}

#[test]
fn profiles_must_be_a_list_of_sets_and_empty() {
    assert_eq!(evaluate_profiles(&Vec::new(), "/g").unwrap().len(), 0);
    assert!(matches!(
        evaluate_profiles(&attrs(vec![("profiles", string("x"))]), "/g"),
        Err(ConfigError::ProfilesNotList)
    ));
    assert!(matches!(
        evaluate_profiles(&attrs(vec![("profiles", list(vec![string("x")]))]), "/g"),
        Err(ConfigError::ProfilesNotAttrs)
    ));
    let one = set(vec![("name", string("a")), ("flavor", flavor("stable"))]);
    assert!(matches!(
        evaluate_profiles(&attrs(vec![("profiles", list(vec![one]))]), "/g"),
        Err(ConfigError::ProfilesNotEmpty)
    ));
    assert_eq!(evaluate_profiles(&attrs(vec![("profiles", list(Vec::new()))]), "/g").unwrap().len(), 0);
}

#[test]
fn the_configuration_needs_a_titanfall_path() {
    assert!(matches!(evaluate_config(&Vec::new()), Err(ConfigError::NoTitanfallPath)));
    let a = attrs(vec![
        ("titanfall2-path", path("/tf2")),
        ("launch-args", list(vec![string("-dev")])),
        ("launch-method", val("Steam", NixKind::Other)),
    ]);
    let c = evaluate_config(&a).unwrap();
    assert_eq!(c.titanfall2, "/tf2");
    assert!(c.profiles.is_empty());
    assert_eq!(c.launch_args, vec!["-dev".to_string()]);
    assert_eq!(c.preferred_launch, LaunchMethod::Steam);
}

#[test]
fn values_give_their_sets_and_lists() {
    let s = set(vec![("a", string("x"))]);
    assert_eq!(s.get_attr().unwrap().len(), 1);
    assert!(s.get_list().is_none());
    let l = list(vec![string("x"), string("y")]);
    assert_eq!(l.get_list().unwrap().len(), 2);
    assert!(l.get_attr().is_none());
}
