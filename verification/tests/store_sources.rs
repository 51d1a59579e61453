use std::hash::Hash;
use flightcore_ng_core::bootstrap::Os;
use flightcore_ng_core::flake::{get_github_flake_ref, get_repo_flake_ref, FlakeRef, ForgeRef};
use flightcore_ng_core::nix::{NixKind, NixValue};
use flightcore_ng_core::sources::{
    invert_result_option, InstantiateError, InstantiatePlan, Northstar, Repo, Source, SourceError,
    Store,
};

fn forge(owner: &str, repo: &str, rev: Option<&str>) -> ForgeRef {
    ForgeRef {
        owner: owner.to_string(),
        repo: repo.to_string(),
        host: None,
        keytype: None,
        public_key: None,
        public_keys: None,
        git_ref: None,
        rev: rev.map(|r| r.to_string()),
    }
}

fn local(path: &str) -> FlakeRef {
    FlakeRef::Path { last_modified: None, nar_hash: None, path: path.to_string(), rev: None, rev_count: None }
}

fn val(shown: &str, kind: NixKind) -> NixValue {
    NixValue { shown: shown.to_string(), kind }
}

fn set(entries: Vec<(&str, NixValue)>) -> NixValue {
    val("{ ... }", NixKind::Attrs(entries.into_iter().map(|(k, v)| (k.to_string(), v)).collect()))
}

fn parse(text: &str) -> Option<FlakeRef> {
    let rest = text.strip_prefix("github:")?;
    let mut parts = rest.split('/');
    let owner = parts.next()?;
    let repo = parts.next()?;
    Some(FlakeRef::GitHub(forge(owner, repo, parts.next())))
}

#[test]
fn repository_names() {
    let gh = Repo { url: FlakeRef::GitHub(forge("o", "r", Some("abc"))), sub_mod: Some("m".to_string()), hash: None };
    assert_eq!(gh.get_name(), "github-o-r-abc--m");
    let gl = Repo { url: FlakeRef::GitLab(forge("o", "r", None)), sub_mod: None, hash: None };
    assert_eq!(gl.get_name(), "gitlab-o-r--");
    let sh = Repo { url: FlakeRef::SourceHut(forge("o", "r", None)), sub_mod: None, hash: None };
    assert_eq!(sh.get_name(), "gitlab-o-r--");
    let hg = Repo {
        url: FlakeRef::Mercurial { git_ref: Some("https://hg/x".to_string()), rev: Some("12".to_string()) },
        sub_mod: None,
        hash: None,
    };
    assert_eq!(hg.get_name(), "repo-https://hg/x-12");
    let p = Repo { url: local("/home/me/mods\\x"), sub_mod: None, hash: None };
    assert_eq!(p.get_name(), "-home-me-mods-x");
}

#[test]
fn repositories_install_into_the_mods_directory() {
    let r = Repo { url: local("/m"), sub_mod: None, hash: None };
    assert_eq!(r.install_path(Os::Linux, "/tf2/R2Northstar"), Some("/tf2/R2Northstar/mods".to_string()));
}

#[test]
fn instantiation_plans() {
    let gh = Repo { url: FlakeRef::GitHub(forge("o", "r", Some("abc"))), sub_mod: None, hash: None };
    match gh.instantiate_plan(Os::Linux, "/store") {
        Ok(InstantiatePlan::Clone { url, recurse_submodules, dest, rev }) => {
            assert_eq!(url, "https://github.com/o/r.git");
            assert!(!recurse_submodules);
            assert_eq!(dest, "/store/github-o-r-abc-");
            assert_eq!(rev, "abc");
        }
        _ => panic!("expected a clone"),
    }
    let mut hosted = forge("o", "r", Some("1"));
    hosted.host = Some("git.example.org".to_string());
    let gl = Repo { url: FlakeRef::GitLab(hosted), sub_mod: None, hash: None };
    match gl.instantiate_plan(Os::Linux, "/store") {
        Ok(InstantiatePlan::Clone { url, .. }) => assert_eq!(url, "https://git.example.org/o/r.git"),
        _ => panic!("expected a clone"),
    }
    let no_rev = Repo { url: FlakeRef::GitHub(forge("o", "r", None)), sub_mod: None, hash: None };
    assert!(matches!(no_rev.instantiate_plan(Os::Linux, "/store"), Err(InstantiateError::MissingRev)));
    let p = Repo { url: local("/src/mods"), sub_mod: Some("sub".to_string()), hash: None };
    match p.instantiate_plan(Os::Linux, "/store") {
        Ok(InstantiatePlan::Link { source, dest }) => {
            assert_eq!(source, "/src/mods/sub");
            assert_eq!(dest, "/store/-src-mods");
        }
        _ => panic!("expected a link"),
    }
    assert_eq!(p.instantiated_marker(Os::Linux, "/store/x"), "/store/x/sub");
    let q = Repo { url: local("/src/mods"), sub_mod: None, hash: None };
    assert_eq!(q.instantiated_marker(Os::Linux, "/store/x"), "/store/x");
}

#[test]
fn inverting_an_optional_result() {
    assert_eq!(invert_result_option::<u8, u8>(Some(Ok(1))), Ok(Some(1)));
    assert_eq!(invert_result_option::<u8, u8>(Some(Err(2))), Err(2));
    assert_eq!(invert_result_option::<u8, u8>(None), Ok(None));
}

#[test]
fn repo_source_is_read_from_its_description() {
    let d = set(vec![
        ("url", val("github:o/r/abc", NixKind::Other)),
        ("hash", val("\"h\"", NixKind::Str("h".to_string()))),
        ("sub-mod", val("/m", NixKind::Path("/m".to_string()))),
    ]);
    let r = Repo::try_from_value(&d, &parse).unwrap().unwrap();
    assert_eq!(r.get_name(), "github-o-r-abc--/m");
    assert_eq!(r.hash, Some("h".to_string()));
    assert_eq!(r.sub_mod, Some("/m".to_string()));
}

#[test]
fn repo_source_errors() {
    assert_eq!(Repo::try_from_value(&val("1", NixKind::Other), &parse).err(), Some(SourceError::NotAttrs));
    let typed = set(vec![("_type", val("repo", NixKind::Other))]);
    assert!(matches!(Repo::try_from_value(&typed, &parse), Ok(None)));
    let hash = set(vec![("hash", val("1", NixKind::Other)), ("url", val("github:o/r", NixKind::Other))]);
    assert_eq!(Repo::try_from_value(&hash, &parse).err(), Some(SourceError::HashNotString));
    let no_url = set(Vec::new());
    assert_eq!(Repo::try_from_value(&no_url, &parse).err(), Some(SourceError::MissingUrl));
    let bad_url = set(vec![("url", val("nope", NixKind::Other))]);
    assert_eq!(Repo::try_from_value(&bad_url, &parse).err(), Some(SourceError::BadUrl));
    let bad_sub = set(vec![("url", val("github:o/r", NixKind::Other)), ("sub-mod", val("x", NixKind::Other))]);
    assert_eq!(Repo::try_from_value(&bad_sub, &parse).err(), Some(SourceError::SubModNotPath));
}

#[test]
fn northstar_source_defaults_its_plugins() {
    let d = set(vec![
        ("launcher", val("github:R2Northstar/NorthstarLauncher", NixKind::Other)),
        ("mods", val("github:R2Northstar/NorthstarMods", NixKind::Other)),
    ]);
    let n = Northstar::try_from_value(&d, &parse).unwrap().unwrap();
    match &n.discordrpc {
        FlakeRef::GitHub(f) => assert_eq!((f.owner.as_str(), f.repo.as_str()), ("R2Northstar", "DiscordRPC")),
        _ => panic!("expected GitHub"),
    }
    match &n.plugins {
        FlakeRef::GitHub(f) => assert_eq!(f.repo, "NorthstarPlugins"),
        _ => panic!("expected GitHub"),
    }
    assert_eq!(n.install_path("/p"), None);
    assert!(n.is_instantiated("/store"));
}

#[test]
fn northstar_source_errors() {
    let no_launcher = set(vec![("mods", val("github:a/b", NixKind::Other))]);
    assert_eq!(Northstar::try_from_value(&no_launcher, &parse).err(), Some(SourceError::MissingLauncher));
    let no_mods = set(vec![("launcher", val("github:a/b", NixKind::Other))]);
    assert_eq!(Northstar::try_from_value(&no_mods, &parse).err(), Some(SourceError::MissingMods));
    let bad_rpc = set(vec![
        ("launcher", val("github:a/b", NixKind::Other)),
        ("mods", val("github:a/c", NixKind::Other)),
        ("discordrpc", val("nope", NixKind::Other)),
    ]);
    assert_eq!(Northstar::try_from_value(&bad_rpc, &parse).err(), Some(SourceError::BadDiscordRpc));
    let typed = set(vec![("_type", val("northstar", NixKind::Other))]);
    assert!(matches!(Northstar::try_from_value(&typed, &parse), Ok(None)));
}

#[test]
fn northstar_names_are_decimal_hashes_of_their_parts() {
    let make = |rev: &str| Northstar {
        launcher: FlakeRef::GitHub(forge("R2Northstar", "NorthstarLauncher", Some(rev))),
        mods: get_github_flake_ref("R2Northstar", "NorthstarMods"),
        discordrpc: get_repo_flake_ref(Some("abc".to_string()), "https://x/y.git"),
        plugins: local("/p"),
    };
    let a = make("1").get_name();
    assert_eq!(a, make("1").get_name());
    assert_ne!(a, make("2").get_name());
    assert!(!a.is_empty() && a.chars().all(|c| c.is_ascii_digit()));
    assert!(a.parse::<u64>().is_ok());
}

#[test]
fn flake_reference_builders() {
    match get_github_flake_ref("o", "r") {
        FlakeRef::GitHub(f) => {
            assert_eq!((f.owner.as_str(), f.repo.as_str()), ("o", "r"));
            assert!(f.rev.is_none() && f.host.is_none());
        }
        _ => panic!("expected GitHub"),
    }
    match get_repo_flake_ref(Some("abc".to_string()), "https://x/y.git") {
        FlakeRef::Git { rev, url, submodules, shallow, .. } => {
            assert_eq!(rev, Some("abc".to_string()));
            assert_eq!(url, "https://x/y.git");
            assert!(submodules && !shallow);
        }
        _ => panic!("expected git"),
    }
}

#[test]
fn store_lookups() {
    let mut s = Store::new(Os::Linux, "/data");
    assert_eq!(s.store_path(), "/data/store");
    assert_eq!(s.eval_path, "/data");
    assert!(s.get_profile("x").is_none());
    s.sources.push(("a".to_string(), Source::Mod));
    s.sources.push(("b".to_string(), Source::Package));
    s.sources.push(("a".to_string(), Source::Package));
    assert!(matches!(s.get_source("a"), Some(Source::Mod)));
    assert!(matches!(s.get_source("b"), Some(Source::Package)));
    assert!(s.get_source("c").is_none());
}

fn std_name(parts: &[&dyn Fn(&mut std::collections::hash_map::DefaultHasher)]) -> String {
    let mut h = std::collections::hash_map::DefaultHasher::new();
    for p in parts {
        p(&mut h);
    }
    std::hash::Hasher::finish(&h).to_string()
}

#[test]
fn northstar_names_hash_the_fields_as_std_does() {
    let keys = Some(vec!["k1".to_string(), "k2".to_string()]);
    let mut launcher = forge("R2Northstar", "NorthstarLauncher", Some("abc"));
    launcher.host = Some("github.com".to_string());
    launcher.public_keys = keys.clone();
    let n = Northstar {
        launcher: FlakeRef::GitHub(launcher),
        mods: FlakeRef::Git {
            all_refs: false,
            export_ignore: true,
            keytype: None,
            public_key: Some("pk".to_string()),
            public_keys: None,
            git_ref: Some("main".to_string()),
            rev: None,
            shallow: false,
            submodules: true,
            url: "https://x/y.git".to_string(),
            verify_commit: false,
        },
        discordrpc: FlakeRef::Path {
            last_modified: Some(1700000000),
            nar_hash: None,
            path: "/home/me/./rpc//build/.".to_string(),
            rev: Some("r".to_string()),
            rev_count: Some(42),
        },
        plugins: FlakeRef::File {
            last_modified: None,
            nar_hash: Some("sha256-x".to_string()),
            rev: None,
            rev_count: Some(7),
            url: "https://example.org/p.tar.gz".to_string(),
        },
    };
    let none: Option<String> = None;
    let expected = std_name(&[
        &|h| {
            "R2Northstar".hash(h);
            "NorthstarLauncher".hash(h);
            Some("github.com".to_string()).hash(h);
            none.hash(h);
            none.hash(h);
            keys.hash(h);
            none.hash(h);
            Some("abc".to_string()).hash(h);
        },
        &|h| {
            false.hash(h);
            true.hash(h);
            none.hash(h);
            Some("pk".to_string()).hash(h);
            None::<Vec<String>>.hash(h);
            Some("main".to_string()).hash(h);
            none.hash(h);
            false.hash(h);
            true.hash(h);
            "https://x/y.git".hash(h);
            false.hash(h);
        },
        &|h| {
            Some(1700000000u64).hash(h);
            none.hash(h);
            std::path::PathBuf::from("/home/me/./rpc//build/.").hash(h);
            Some("r".to_string()).hash(h);
            Some(42u64).hash(h);
        },
        &|h| {
            None::<u64>.hash(h);
            Some("sha256-x".to_string()).hash(h);
            none.hash(h);
            Some(7u64).hash(h);
            "https://example.org/p.tar.gz".hash(h);
        },
    ]);
    assert_eq!(n.get_name(), expected);
}

#[test]
fn path_references_hash_as_std_paths() {
    for p in ["", "/", "a", "./a", "a/.", "a/./b", "/a//b/", "a/.b/c", "a/..", "/x/y/z.", "é/ü"] {
        let n = Northstar {
            launcher: local(p),
            mods: local(p),
            discordrpc: local(p),
            plugins: local(p),
        };
        let one = |h: &mut std::collections::hash_map::DefaultHasher| {
            None::<u64>.hash(h);
            None::<String>.hash(h);
            std::path::Path::new(p).hash(h);
            None::<String>.hash(h);
            None::<u64>.hash(h);
        };
        assert_eq!(n.get_name(), std_name(&[&one, &one, &one, &one]), "{p:?}");
    }
}
