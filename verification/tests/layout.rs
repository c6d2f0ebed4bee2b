use pendrake::ipc::{ImportType, Network, ViewMode};
use pendrake::paths::{
    default_true, DirEntry, FileRead, LegacyTree, Listing, Meta, MetaRead, Paths,
};
use pendrake::run::{lock_file, start_paths, Config, Stage, StartError};
use pendrake::transport::{
    fnv1a_hash, pipe_endpoint, unix_endpoint, windows_endpoint, Platform,
};

fn root() -> Paths {
    Paths::with_root(Platform::Unix, b"/data".to_vec())
}

fn meta(fingerprint: Option<&str>) -> Meta {
    Meta {
        network: Network::Mainnet,
        indexer_uri: String::new(),
        import_type: ImportType::Ufvk,
        view_mode: ViewMode::Full,
        birthday_height: 0,
        scan_target_height: 0,
        encrypted: false,
        fingerprint: fingerprint.map(str::to_string),
        label: None,
        notifications_enabled: default_true(),
        fiat_enabled: false,
        discreet: false,
        anchor_height: 0,
        anchor_hash: None,
    }
}

#[test]
fn the_layout_hangs_off_the_root() {
    let paths = root();
    assert_eq!(paths.socket, b"/data/daemon.sock");
    assert_eq!(paths.price_cache_file, b"/data/price_cache.json");
    assert_eq!(paths.wallets_dir, b"/data/wallets");
    assert_eq!(paths.active_id_file, b"/data/active_wallet_id");
    assert_eq!(paths.wallet_id, None);
    assert_eq!(paths.wallet_dir, b"/data/wallet");
    assert_eq!(paths.meta_file, b"/data/meta.json");
    assert_eq!(paths.notified_file, b"/data/notified.json");
    let scoped = paths.for_wallet("ab");
    assert_eq!(scoped.wallet_id.as_deref(), Some("ab"));
    assert_eq!(scoped.wallet_dir, b"/data/wallets/ab/wallet");
    assert_eq!(scoped.meta_file, b"/data/wallets/ab/meta.json");
    assert_eq!(scoped.notified_file, b"/data/wallets/ab/notified.json");
    assert_eq!(scoped.socket, b"/data/daemon.sock");
    assert_ne!(scoped.meta_file, paths.for_wallet("cd").meta_file);
    assert_eq!(paths.endpoint(), "/data/daemon.sock");

    let paths = Paths::with_root(Platform::Windows, br"C:\data".to_vec());
    assert_eq!(paths.wallets_dir, br"C:\data\wallets");
    assert_eq!(
        paths.for_wallet("ab").meta_file,
        br"C:\data\wallets\ab\meta.json"
    );
    assert_eq!(paths.endpoint(), windows_endpoint(&br"C:\data".to_vec()));
    assert_eq!(lock_file(&paths), br"C:\data\daemon.lock");
}

#[test]
fn a_path_is_joined_as_the_system_does() {
    let join = |base: &str, part: &str| {
        String::from_utf8(Platform::Unix.join(&base.as_bytes().to_vec(), part)).unwrap()
    };
    assert_eq!(join("/a", "b"), "/a/b");
    assert_eq!(join("/a/", "b"), "/a/b");
    assert_eq!(join("", "b"), "b");
    assert_eq!(join("/a", "/b"), "/b");
    assert_eq!(join("/a", ""), "/a/");
    assert_eq!(join("/a", r"\b"), r"/a/\b");
    assert_eq!(join("C:", "C:b"), "C:/C:b");
    let join = |base: &str, part: &str| {
        String::from_utf8(Platform::Windows.join(&base.as_bytes().to_vec(), part)).unwrap()
    };
    assert_eq!(join(r"C:\a", "b"), r"C:\a\b");
    assert_eq!(join(r"C:\a\", "b"), r"C:\a\b");
    assert_eq!(join("C:/a/", "b"), "C:/a/b");
    assert_eq!(join("", "b"), "b");
    // The root of a drive or a share is still on it.
    assert_eq!(join(r"C:\a", r"\b"), r"C:\b");
    assert_eq!(join(r"\\srv\share\a", "/b"), r"\\srv\share/b");
    assert_eq!(join(r"a\b", r"\c"), r"\c");
    // What is on another drive or share replaces it.
    assert_eq!(join(r"C:\a", r"D:\b"), r"D:\b");
    assert_eq!(join(r"C:\a", "D:b"), "D:b");
    assert_eq!(join(r"C:\a", r"\\srv\share\b"), r"\\srv\share\b");
    // A drive alone is its current directory.
    assert_eq!(join("C:", "b"), "C:b");
}

#[test]
fn the_override_wins_over_the_data_directory() {
    let paths = Paths::resolve(Platform::Unix, Some(b"/x".to_vec()), Some(b"/y".to_vec())).ok();
    assert_eq!(paths.unwrap().root, b"/x");
    let paths = Paths::resolve(Platform::Unix, None, Some(b"/y".to_vec())).ok();
    assert_eq!(paths.unwrap().root, b"/y/pendrake-watch");
    assert_eq!(
        Paths::resolve(Platform::Unix, None, None).err(),
        Some("could not determine OS data directory".to_string())
    );
    let config = Config {
        data_dir: Some(b"/z".to_vec()),
    };
    let paths = start_paths(Platform::Unix, config, Some(b"/x".to_vec()), None).ok().unwrap();
    assert_eq!(paths.root, b"/z");
    assert_eq!(lock_file(&paths), b"/z/daemon.lock");
    assert_eq!(
        start_paths(Platform::Unix, Config::default(), None, None).err(),
        Some(StartError::Failed(
            "could not determine OS data directory".to_string()
        ))
    );
}

#[test]
fn directories_are_created_for_the_scope() {
    let dirs = root().ensure_dirs();
    assert_eq!(dirs.len(), 1);
    assert_eq!(dirs[0].path, b"/data/wallets");
    assert_eq!(dirs[0].failure, "creating wallets dir /data/wallets");
    let dirs = root().for_wallet("ab").ensure_dirs();
    assert_eq!(dirs.len(), 2);
    assert_eq!(dirs[1].path, b"/data/wallets/ab/wallet");
    assert_eq!(dirs[1].failure, "creating wallet dir /data/wallets/ab/wallet");
}

#[test]
fn the_active_id_is_read_as_it_was_written() {
    let paths = root();
    let (file, bytes) = paths.write_active_id("f00d");
    assert_eq!(file, b"/data/active_wallet_id");
    let text = String::from_utf8(bytes).unwrap();
    assert_eq!(
        paths.read_active_id(&FileRead::Text(text)),
        Ok(Some("f00d".to_string()))
    );
    assert_eq!(
        paths.read_active_id(&FileRead::Text(" f00d\n".to_string())),
        Ok(Some("f00d".to_string()))
    );
    assert_eq!(
        paths.read_active_id(&FileRead::Text(" \n".to_string())),
        Ok(None)
    );
    assert_eq!(paths.read_active_id(&FileRead::Missing), Ok(None));
    assert_eq!(
        paths.read_active_id(&FileRead::Failed),
        Err("reading active_wallet_id".to_string())
    );
    assert_eq!(paths.scoped_paths(&FileRead::Failed).wallet_id, None);
    assert_eq!(
        paths
            .scoped_paths(&FileRead::Text("ab".to_string()))
            .wallet_id
            .as_deref(),
        Some("ab")
    );
}

fn entry(name: &[u8], is_dir: bool) -> Result<DirEntry, String> {
    Ok(DirEntry {
        name: name.to_vec(),
        is_dir,
    })
}

#[test]
fn wallet_ids_are_the_directories_in_order() {
    let paths = root();
    let listing = Listing::Entries(vec![
        entry(b"b", true),
        entry(b"a.txt", false),
        entry(b"ab", true),
        entry(b"a", true),
        entry(b"\xff", true),
        entry(b"B", true),
    ]);
    assert_eq!(
        paths.list_wallet_ids(&listing).unwrap(),
        vec!["B", "a", "ab", "b", "\u{fffd}"]
    );
    assert_eq!(
        paths.list_wallet_ids(&Listing::Missing).unwrap(),
        Vec::<String>::new()
    );
    assert_eq!(
        paths.list_wallet_ids(&Listing::Failed).unwrap_err(),
        "reading wallets dir"
    );
    let broken = Listing::Entries(vec![
        entry(b"b", true),
        Err("first".to_string()),
        Err("second".to_string()),
    ]);
    assert_eq!(paths.list_wallet_ids(&broken).unwrap_err(), "first");
}

fn legacy(fingerprint: Option<&str>) -> LegacyTree {
    LegacyTree {
        meta_exists: true,
        active: FileRead::Missing,
        meta: Ok(Some(meta(fingerprint))),
        wallet_exists: true,
        notified_exists: false,
    }
}

#[test]
fn a_legacy_wallet_is_moved_under_its_fingerprint() {
    let paths = root();
    let m = paths
        .migrate_legacy_if_needed(&legacy(Some("f00d")))
        .unwrap()
        .unwrap();
    assert_eq!(m.id, "f00d");
    assert_eq!(m.dir, b"/data/wallets/f00d");
    let wallet = m.wallet.unwrap();
    assert_eq!(wallet.from, b"/data/wallet");
    assert_eq!(wallet.to, b"/data/wallets/f00d/wallet");
    assert_eq!(m.meta.from, b"/data/meta.json");
    assert_eq!(m.meta.to, b"/data/wallets/f00d/meta.json");
    assert!(m.notified.is_none());
    for unnamed in [None, Some("")] {
        let m = paths
            .migrate_legacy_if_needed(&legacy(unnamed))
            .unwrap()
            .unwrap();
        assert_eq!(m.id, "default");
    }
    let m = paths
        .migrate_legacy_if_needed(&LegacyTree {
            wallet_exists: false,
            notified_exists: true,
            ..legacy(None)
        })
        .unwrap()
        .unwrap();
    assert!(m.wallet.is_none());
    assert_eq!(
        m.notified.unwrap().to,
        b"/data/wallets/default/notified.json"
    );
}

#[test]
fn a_tree_is_migrated_once() {
    let paths = root();
    let none = |tree: LegacyTree| paths.migrate_legacy_if_needed(&tree).unwrap().is_none();
    assert!(none(LegacyTree {
        active: FileRead::Text("f00d".to_string()),
        ..legacy(Some("f00d"))
    }));
    assert!(none(LegacyTree {
        meta_exists: false,
        ..legacy(Some("f00d"))
    }));
    let error = |tree: LegacyTree| paths.migrate_legacy_if_needed(&tree).err();
    assert_eq!(
        error(LegacyTree {
            active: FileRead::Failed,
            ..legacy(None)
        }),
        Some("reading active_wallet_id".to_string())
    );
    assert_eq!(
        error(LegacyTree {
            meta: Ok(None),
            ..legacy(None)
        }),
        Some("legacy meta.json missing after exists check".to_string())
    );
    assert_eq!(
        error(LegacyTree {
            meta: Err("parsing meta.json".to_string()),
            ..legacy(None)
        }),
        Some("parsing meta.json".to_string())
    );
}

#[test]
fn metadata_is_loaded_where_it_is_there() {
    assert!(Meta::load(MetaRead::Missing).unwrap().is_none());
    assert_eq!(
        Meta::load(MetaRead::Failed).unwrap_err(),
        "reading meta.json"
    );
    assert_eq!(
        Meta::load(MetaRead::Garbled).unwrap_err(),
        "parsing meta.json"
    );
    let loaded = Meta::load(MetaRead::Parsed(meta(Some("f00d")))).unwrap();
    assert_eq!(loaded.unwrap().fingerprint.as_deref(), Some("f00d"));
    let staged = |file: &[u8]| Meta::staging_file(Platform::Unix, &file.to_vec());
    assert_eq!(
        staged(b"/data/meta.json"),
        Some(b"/data/meta.json.tmp".to_vec())
    );
    // The extension is replaced, whatever it is, and added where there is none.
    assert_eq!(staged(b"/d.x/meta.old"), Some(b"/d.x/meta.json.tmp".to_vec()));
    assert_eq!(staged(b"/d.x/meta"), Some(b"/d.x/meta.json.tmp".to_vec()));
    assert_eq!(staged(b".meta"), Some(b".meta.json.tmp".to_vec()));
    assert_eq!(staged(b"a.b.c"), Some(b"a.b.json.tmp".to_vec()));
    assert_eq!(staged(b"..."), Some(b"...json.tmp".to_vec()));
    for nameless in [&b""[..], b"/data/", b"/data/.", b".."] {
        assert_eq!(staged(nameless), None);
    }
    let staged = |file: &[u8]| Meta::staging_file(Platform::Windows, &file.to_vec());
    assert_eq!(
        staged(br"C:\d.x\meta.json"),
        Some(br"C:\d.x\meta.json.tmp".to_vec())
    );
    assert_eq!(staged(b"C:.meta"), Some(b"C:.meta.json.tmp".to_vec()));
    assert_eq!(staged(b"C:"), None);
    assert_eq!(staged(br"\\srv\share"), None);
    let copy = meta(Some("f00d")).clone();
    assert!(copy.notifications_enabled);
}

#[test]
fn endpoints_are_derived_from_the_root() {
    assert_eq!(unix_endpoint(&b"/data".to_vec()), "/data/daemon.sock");
    assert_eq!(unix_endpoint(&b"/d\xff".to_vec()), "/d\u{fffd}/daemon.sock");
    assert_eq!(fnv1a_hash(b""), 0xcbf2_9ce4_8422_2325);
    assert_eq!(fnv1a_hash(b"a"), 0xaf63_dc4c_8601_ec8c);
    assert_eq!(fnv1a_hash(b"foobar"), 0x8594_4171_f739_67e8);
    assert_eq!(
        pipe_endpoint("foobar"),
        r"\\.\pipe\pendrake-85944171f73967e8"
    );
    assert_eq!(
        windows_endpoint(&b"foobar".to_vec()),
        r"\\.\pipe\pendrake-85944171f73967e8"
    );
}

// Run through the stages of a start, each with its outcome.
fn start(outcomes: Vec<Result<(), String>>) -> Result<Stage, StartError> {
    let mut stage = Stage::CreateDirs;
    for outcome in outcomes {
        stage = stage.advance(outcome)?;
    }
    Ok(stage)
}

#[test]
fn second_instance_is_rejected_as_already_running() {
    assert_eq!(
        start(vec![Ok(()), Ok(()), Ok(()), Ok(()), Ok(())]),
        Ok(Stage::Up)
    );
    match start(vec![Ok(()), Ok(()), Err("lock is held".to_string())]) {
        Err(StartError::AlreadyRunning) => {}
        Err(_) => panic!("a second instance was refused, but not as AlreadyRunning"),
        Ok(_) => panic!("a second instance on the same data dir should be refused"),
    }
    assert_eq!(
        StartError::AlreadyRunning.message(),
        "another Pendrake service instance is already running"
    );
}

#[test]
fn a_non_lock_startup_failure_is_reported_as_failed() {
    // A regular file sitting where the data dir should be makes directory creation fail
    // before the lock is ever considered. That fault must not masquerade as
    // AlreadyRunning, or the host would wrongly step aside.
    match start(vec![Err("not a directory".to_string())]) {
        Err(StartError::Failed(e)) => assert_eq!(e, "not a directory"),
        Err(StartError::AlreadyRunning) => {
            panic!("a creation failure must not be reported as AlreadyRunning")
        }
        Ok(_) => panic!("the start should fail when the data dir can't be created"),
    }
    assert!(matches!(
        start(vec![Ok(()), Ok(()), Ok(()), Err("no threads".to_string())]),
        Err(StartError::Failed(_))
    ));
}
