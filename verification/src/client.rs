//! The GUI's side: a thin client over the daemon.
//!
//! It probes the daemon's socket, spawns the daemon if nothing answers, and then forwards
//! requests and replies between the webview and the socket.

use vstd::prelude::*;
use vstd::string::*;
use vstd::utf8::*;

use crate::clock::{Duration, Instant};
use crate::gate::Method;
use crate::ipc;
use crate::json;
use crate::json::Member;
use crate::paths;
use crate::text;
use crate::transport;
use crate::transport::Platform;

verus! {

broadcast use vstd::string::group_string_axioms;

/// The shortest gap between two spawn attempts, in seconds. Longer than we wait for a
/// spawn to bind, so a daemon that never comes up is retried at a slow cadence rather
/// than launched again on every request.
pub const SPAWN_COOLDOWN_SECS: u64 = 10;

/// How often a daemon that was spawned is dialled, and how long is waited before each
/// attempt, in milliseconds.
pub const DIAL_ATTEMPTS: u32 = 50;

pub const DIAL_INTERVAL_MILLIS: u64 = 100;

/// How long the event bridge waits before it connects anew, at first and at most, in
/// milliseconds.
pub const BRIDGE_BACKOFF_MIN_MILLIS: u64 = 500;

pub const BRIDGE_BACKOFF_MAX_MILLIS: u64 = 10_000;

// ---------------------------------------------------------------------------
// Where the daemon is
// ---------------------------------------------------------------------------

/// The IPC endpoint, derived from the data root as the daemon derives it, so the client
/// and daemon meet at the same socket without sharing state.
pub fn endpoint(
    platform: Platform,
    data_dir_override: Option<Vec<u8>>,
    data_dir: Option<Vec<u8>>,
) -> (r: Result<String, String>)
    ensures
        match paths::data_root(
            platform,
            paths::bytes_view(data_dir_override),
            paths::bytes_view(data_dir),
        ) {
            Some(root) => r is Ok && r->Ok_0@ == transport::endpoint_of(platform, root),
            None => r is Err && r->Err_0@ == "could not determine OS data directory"@,
        },
{
    match paths::find_data_root(platform, data_dir_override, data_dir) {
        Ok(root) => Ok(transport::endpoint(platform, &root)),
        Err(e) => Err(e),
    }
}

/// The places a daemon binary is looked for, in order: beside the GUI binary, then where
/// a dev build puts it as seen from the GUI binary, then as seen from the working
/// directory (release preferred over debug).
pub open spec fn daemon_places(
    platform: Platform,
    exe_dir: Option<Seq<u8>>,
    suffix: Seq<char>,
) -> Seq<Seq<u8>> {
    let beside = match exe_dir {
        Some(dir) => seq![
            platform.within(dir, "pendraked"@ + suffix),
            platform.within(dir, "../../../crates/target/release/pendraked"@ + suffix),
            platform.within(dir, "../../../crates/target/debug/pendraked"@ + suffix),
        ],
        None => seq![],
    };
    beside + seq![
        encode_utf8("crates/target/release/pendraked"@ + suffix),
        encode_utf8("../crates/target/release/pendraked"@ + suffix),
        encode_utf8("crates/target/debug/pendraked"@ + suffix),
        encode_utf8("../crates/target/debug/pendraked"@ + suffix),
    ]
}

/// The views of a list of paths.
pub open spec fn path_views(v: Seq<Vec<u8>>) -> Seq<Seq<u8>> {
    v.map_values(|p: Vec<u8>| p@)
}

fn suffixed(name: &str, suffix: &str) -> (r: String)
    ensures
        r@ == name@ + suffix@,
{
    let mut s = name.to_string();
    s.append(suffix);
    s
}

fn push_place(
    platform: Platform,
    places: &mut Vec<Vec<u8>>,
    base: &Vec<u8>,
    name: &str,
    suffix: &str,
)
    ensures
        path_views(final(places)@) == path_views(old(places)@).push(
            platform.within(base@, name@ + suffix@),
        ),
{
    let file = suffixed(name, suffix);
    let place = platform.join(base, file.as_str());
    let ghost before = places@;
    places.push(place);
    assert(path_views(places@) =~= path_views(before).push(place@));
}

/// Put the bytes of a text behind a list.
fn push_text(texts: &mut Vec<Vec<u8>>, name: &str, suffix: &str)
    ensures
        path_views(final(texts)@) == path_views(old(texts)@).push(encode_utf8(name@ + suffix@)),
{
    let text = suffixed(name, suffix);
    let bytes = text_bytes(text.as_str());
    let ghost before = texts@;
    texts.push(bytes);
    assert(path_views(texts@) =~= path_views(before).push(bytes@));
}

/// The bytes of a text.
fn text_bytes(text: &str) -> (r: Vec<u8>)
    ensures
        r@ == encode_utf8(text@),
{
    let mut bytes: Vec<u8> = Vec::new();
    transport::append_bytes(&mut bytes, text.as_bytes());
    assert(bytes@ =~= encode_utf8(text@));
    bytes
}

/// The places a daemon binary is looked for, in order.
pub fn daemon_candidates(platform: Platform, exe_dir: &Option<Vec<u8>>, suffix: &str) -> (r: Vec<
    Vec<u8>,
>)
    ensures
        path_views(r@) == daemon_places(platform, paths::bytes_view(*exe_dir), suffix@),
{
    let mut places: Vec<Vec<u8>> = Vec::new();
    assert(path_views(places@) =~= seq![]);
    if let Some(dir) = exe_dir {
        push_place(platform, &mut places, dir, "pendraked", suffix);
        push_place(platform, &mut places, dir, "../../../crates/target/release/pendraked", suffix);
        push_place(platform, &mut places, dir, "../../../crates/target/debug/pendraked", suffix);
    }
    push_text(&mut places, "crates/target/release/pendraked", suffix);
    push_text(&mut places, "../crates/target/release/pendraked", suffix);
    push_text(&mut places, "crates/target/debug/pendraked", suffix);
    push_text(&mut places, "../crates/target/debug/pendraked", suffix);
    assert(path_views(places@) =~= daemon_places(
        platform,
        paths::bytes_view(*exe_dir),
        suffix@,
    ));
    places
}

/// Whether a place is the first at which something exists.
pub open spec fn first_existing(exists_at: Seq<bool>, i: int) -> bool {
    &&& 0 <= i < exists_at.len()
    &&& exists_at[i]
    &&& forall|k: int| 0 <= k < i ==> !(#[trigger] exists_at[k])
}

/// The daemon binary to spawn: the override if there is one, else the first place at
/// which there is something.
pub fn daemon_bin(
    bin_override: Option<Vec<u8>>,
    places: &Vec<Vec<u8>>,
    exists_at: &Vec<bool>,
) -> (r: Option<Vec<u8>>)
    requires
        places@.len() == exists_at@.len(),
    ensures
        match bin_override {
            Some(bin) => r is Some && r->0@ == bin@,
            None => match r {
                Some(bin) => exists|i: int| #[trigger]
                    first_existing(exists_at@, i) && bin@ == places@[i]@,
                None => forall|k: int| 0 <= k < exists_at@.len() ==> !(#[trigger] exists_at@[k]),
            },
        },
{
    if let Some(bin) = bin_override {
        return Some(bin);
    }
    let mut i: usize = 0;
    while i < places.len()
        invariant
            i <= places@.len(),
            places@.len() == exists_at@.len(),
            bin_override is None,
            forall|k: int| 0 <= k < i ==> !(#[trigger] exists_at@[k]),
        decreases places@.len() - i,
    {
        if exists_at[i] {
            assert(first_existing(exists_at@, i as int));
            return Some(paths::copy_path(&places[i]));
        }
        i = i + 1;
    }
    None
}

/// How the background service is launched.
pub enum Launch {
    /// Open an application bundle, without bringing it to the foreground.
    OpenApp(Vec<u8>),
    /// Run a binary.
    RunBin(Vec<u8>),
}

/// The binary that is run where no other is known, found by the system.
pub fn launch(bin: Option<Vec<u8>>) -> (r: Launch)
    ensures
        r is RunBin,
        r->RunBin_0@ == match bin {
            Some(bin) => bin@,
            None => encode_utf8("pendraked"@),
        },
{
    match bin {
        Some(bin) => Launch::RunBin(bin),
        None => Launch::RunBin(text_bytes("pendraked")),
    }
}

/// How the background service is launched on macOS: an explicit override wins first (the
/// app's, where it exists, then the binary's), then a discovered app (the only host that
/// delivers clickable notifications), then a discovered binary.
pub fn launch_macos(
    app_override: Option<Vec<u8>>,
    app_override_exists: bool,
    bin_override: Option<Vec<u8>>,
    app: Option<Vec<u8>>,
    bin: Option<Vec<u8>>,
) -> (r: Result<Launch, String>)
    ensures
        match r {
            Ok(Launch::OpenApp(path)) => if app_override is Some && app_override_exists {
                path == app_override->0
            } else {
                bin_override is None && app == Some(path)
            },
            Ok(Launch::RunBin(path)) => {
                &&& !(app_override is Some && app_override_exists)
                &&& match bin_override {
                    Some(bin) => path == bin,
                    None => app is None && bin == Some(path),
                }
            },
            Err(e) => {
                &&& !(app_override is Some && app_override_exists)
                &&& bin_override is None && app is None && bin is None
                &&& e@
                    == "could not start the background process. Build the macOS helper (scripts/build-macos-helper.sh), or set PENDRAKED_BIN to a pendraked binary"@
            },
        },
{
    if let Some(path) = app_override {
        if app_override_exists {
            return Ok(Launch::OpenApp(path));
        }
    }
    if let Some(path) = bin_override {
        return Ok(Launch::RunBin(path));
    }
    if let Some(path) = app {
        return Ok(Launch::OpenApp(path));
    }
    if let Some(path) = bin {
        return Ok(Launch::RunBin(path));
    }
    Err(
        "could not start the background process. Build the macOS helper (scripts/build-macos-helper.sh), or set PENDRAKED_BIN to a pendraked binary".to_string(),
    )
}

/// Args for `open` that launch the helper in the background. `-g` keeps it from being
/// brought to the foreground, so spawning the windowless daemon host never steals focus
/// from the GUI window.
pub fn background_open_args(app: &Vec<u8>) -> (r: Vec<Vec<u8>>)
    ensures
        path_views(r@) == seq![encode_utf8("-g"@), app@],
{
    let mut args: Vec<Vec<u8>> = Vec::new();
    args.push(text_bytes("-g"));
    args.push(paths::copy_path(app));
    assert(path_views(args@) =~= seq![encode_utf8("-g"@), app@]);
    args
}

/// A launch that failed.
pub fn launch_error(launch: &Launch, error: &str) -> (r: String)
    ensures
        r@ == match *launch {
            Launch::RunBin(path) => "failed to spawn "@ + transport::lossy_text(path@) + ": "@
                + error@,
            Launch::OpenApp(path) => "failed to launch "@ + transport::lossy_text(path@) + ": "@
                + error@,
        },
{
    match launch {
        Launch::RunBin(path) => {
            let mut s = "failed to spawn ".to_string();
            let shown = transport::to_lossy_text(path.as_slice());
            s.append(shown.as_str());
            s.append(": ");
            s.append(error);
            s
        },
        Launch::OpenApp(path) => {
            let mut s = "failed to launch ".to_string();
            let shown = transport::to_lossy_text(path.as_slice());
            s.append(shown.as_str());
            s.append(": ");
            s.append(error);
            s
        },
    }
}

// ---------------------------------------------------------------------------
// Probe and spawn
// ---------------------------------------------------------------------------

/// Whether enough time has elapsed since the last spawn to attempt another. Never having
/// spawned always permits one.
pub fn spawn_due(last: Option<Instant>, now: Instant, cooldown: Duration) -> (r: bool)
    ensures
        r == match last {
            Some(t) => now.since(t).nanos >= cooldown.nanos,
            None => true,
        },
{
    match last {
        Some(t) => now.duration_since(t).nanos >= cooldown.nanos,
        None => true,
    }
}

/// A method that justifies starting the daemon.
pub open spec fn may_spawn(method: Seq<char>) -> bool {
    ||| method == "getWalletState"@
    ||| method == "listWallets"@
    ||| method == "getSyncStatus"@
    ||| method == "parseUfvk"@
    ||| method == "importUfvk"@
    ||| method == "unlock"@
    ||| method == "syncWallet"@
    ||| method == "selectWallet"@
    ||| method == "removeWallet"@
    ||| method == "setIndexer"@
    ||| method == "setNotifications"@
    ||| method == "setFiatEnabled"@
    ||| method == "setDiscreet"@
    ||| method == "setWalletLabel"@
    ||| method == "shutdown"@
}

/// Methods that justify starting the daemon (user intent: import, unlock, sync, ...),
/// and reads that must see on-disk wallets after a stop-on-close quit.
pub fn method_may_spawn(method: &str) -> (r: bool)
    ensures
        r == may_spawn(method@),
{
    text::same_text(method, "getWalletState") || text::same_text(method, "listWallets")
        || text::same_text(method, "getSyncStatus") || text::same_text(method, "parseUfvk")
        || text::same_text(method, "importUfvk") || text::same_text(method, "unlock")
        || text::same_text(method, "syncWallet") || text::same_text(method, "selectWallet")
        || text::same_text(method, "removeWallet") || text::same_text(method, "setIndexer")
        || text::same_text(method, "setNotifications") || text::same_text(
        method,
        "setFiatEnabled",
    ) || text::same_text(method, "setDiscreet") || text::same_text(method, "setWalletLabel")
        || text::same_text(method, "shutdown")
}

/// How far connecting to the daemon has got.
#[derive(Debug, Clone, Copy, PartialEq, Eq, Structural)]
pub enum Dial {
    /// Before the spawn gate is taken.
    First,
    /// Under the spawn gate: another request may have spawned the daemon meanwhile.
    Gated,
    /// Waiting for a daemon to come up, with so many attempts left.
    Waiting(u32),
}

/// What to do when an attempt to connect has ended.
#[derive(Debug, PartialEq, Eq)]
pub enum DialStep {
    /// The connection is there.
    Connected,
    /// Take the spawn gate and try again.
    TakeGate,
    /// Spawn the daemon unless one was spawned lately ([`spawn_due`]), then wait and try
    /// again.
    SpawnAndWait,
    /// Wait and try again.
    Wait,
    /// Give up, with this error.
    GiveUp(String),
}

impl Dial {
    /// An attempt to connect has ended: how far we have got, and what to do.
    pub fn tried(self, connected: bool) -> (r: (Dial, DialStep))
        requires
            self matches Dial::Waiting(left) ==> left > 0,
        ensures
            connected ==> r.0 == self && r.1 is Connected,
            !connected ==> match self {
                Dial::First => r.0 == Dial::Gated && r.1 is TakeGate,
                Dial::Gated => r.0 == Dial::Waiting(DIAL_ATTEMPTS) && r.1 is SpawnAndWait,
                Dial::Waiting(left) => if left > 1 {
                    r.0 == Dial::Waiting((left - 1) as u32) && r.1 is Wait
                } else {
                    r.0 == self && r.1 is GiveUp && r.1->GiveUp_0@
                        == "daemon did not come up within 5s"@
                },
            },
    {
        if connected {
            return (self, DialStep::Connected);
        }
        match self {
            Dial::First => (Dial::Gated, DialStep::TakeGate),
            Dial::Gated => (Dial::Waiting(DIAL_ATTEMPTS), DialStep::SpawnAndWait),
            Dial::Waiting(left) => if left > 1 {
                (Dial::Waiting(left - 1), DialStep::Wait)
            } else {
                (self, DialStep::GiveUp("daemon did not come up within 5s".to_string()))
            },
        }
    }

    /// How many more attempts there are at most.
    pub open spec fn attempts(self) -> int {
        match self {
            Dial::First => DIAL_ATTEMPTS + 2,
            Dial::Gated => DIAL_ATTEMPTS + 1,
            Dial::Waiting(left) => left as int,
        }
    }

    /// The state after an attempt that failed, where there is another.
    pub open spec fn next(self) -> Dial {
        match self {
            Dial::First => Dial::Gated,
            Dial::Gated => Dial::Waiting(DIAL_ATTEMPTS),
            Dial::Waiting(left) => Dial::Waiting((left - 1) as u32),
        }
    }
}

/// Connecting ends: every attempt that fails leaves one fewer, and a daemon that was
/// spawned is waited for as long as is said when it is given up.
pub proof fn dialling_ends(dial: Dial)
    requires
        dial.attempts() > 0,
    ensures
        dial.next().attempts() == dial.attempts() - 1,
        DIAL_ATTEMPTS * DIAL_INTERVAL_MILLIS == 5_000,
{
}

/// The event bridge: how long it waits before it connects anew.
pub struct Bridge {
    pub backoff: Duration,
}

/// The shortest wait of the bridge.
pub open spec fn bridge_shortest() -> Duration {
    Duration { nanos: (BRIDGE_BACKOFF_MIN_MILLIS * 1_000_000) as u64 }
}

/// The longest wait of the bridge.
pub open spec fn bridge_longest() -> Duration {
    Duration { nanos: (BRIDGE_BACKOFF_MAX_MILLIS * 1_000_000) as u64 }
}

impl Bridge {
    pub open spec fn wf(self) -> bool {
        bridge_shortest().nanos <= self.backoff.nanos <= bridge_longest().nanos
    }

    pub fn new() -> (r: Self)
        ensures
            r.backoff == bridge_shortest(),
            r.wf(),
    {
        Bridge { backoff: Duration::from_millis(BRIDGE_BACKOFF_MIN_MILLIS) }
    }

    /// A subscription ended: how long to wait before the next. The wait doubles with each
    /// one that fails, up to a bound.
    pub fn ended(&mut self, cleanly: bool) -> (r: Duration)
        requires
            old(self).wf(),
        ensures
            final(self).wf(),
            r == if cleanly {
                bridge_shortest()
            } else {
                old(self).backoff
            },
            final(self).backoff.nanos == if 2 * r.nanos <= bridge_longest().nanos {
                2 * r.nanos
            } else {
                bridge_longest().nanos as int
            },
    {
        if cleanly {
            self.backoff = Duration::from_millis(BRIDGE_BACKOFF_MIN_MILLIS);
        }
        let wait = self.backoff;
        let longest = Duration::from_millis(BRIDGE_BACKOFF_MAX_MILLIS);
        let twice: u64 = 2 * wait.nanos;
        self.backoff =
        if twice <= longest.nanos {
            Duration { nanos: twice }
        } else {
            longest
        };
        wait
    }
}

// ---------------------------------------------------------------------------
// Requests and replies
// ---------------------------------------------------------------------------

/// The members of a request.
pub open spec fn request_members(method: Seq<char>, params: serde_json::Value) -> Seq<
    json::MemberView,
> {
    seq![
        json::MemberView { name: "id"@, value: json::number_value(1) },
        json::MemberView { name: "method"@, value: json::string_value(method) },
        json::MemberView { name: "params"@, value: params },
    ]
}

/// A request: what it asks for, and with what.
pub fn request_value(method: &str, params: &serde_json::Value) -> (r: serde_json::Value)
    ensures
        r == json::object_value(request_members(method@, *params)),
        json::text_at(r, "method"@) == Some(method@),
        json::member(r, "params"@) == Some(*params),
        json::member(r, "id"@) == Some(json::number_value(1)),
{
    let mut members: Vec<Member> = Vec::new();
    members.push(Member { name: "id".to_string(), value: json::number(1) });
    members.push(Member { name: "method".to_string(), value: json::string(method) });
    members.push(Member { name: "params".to_string(), value: json::copy(params) });
    proof {
        reveal_strlit("id");
        reveal_strlit("method");
        reveal_strlit("params");
        assert(json::member_views(members@) =~= request_members(method@, *params));
        let all = request_members(method@, *params);
        let (two, one) = (all.drop_last(), all.drop_last().drop_last());
        assert(one.drop_last() =~= seq![]);
        assert(json::by_name(all) == json::by_name(two).insert("params"@, *params));
        assert(json::by_name(two) == json::by_name(one).insert(
            "method"@,
            json::string_value(method@),
        ));
        assert("id"@[0] == 'i' && "method"@[0] == 'm' && "params"@[0] == 'p');
        assert(json::by_name(one) == json::by_name(seq![]).insert("id"@, json::number_value(1)));
        assert(json::distinct_names(all));
    }
    json::object(members)
}

/// A request's line: the request in JSON, and the end of the line.
pub fn request_line(method: &str, params: &serde_json::Value) -> (r: Result<Vec<u8>, String>)
    ensures
        r is Ok,
        r->Ok_0@ == json::value_bytes(
            json::object_value(request_members(method@, *params)),
        ).push(0x0a),
{
    match json::bytes(&request_value(method, params)) {
        Ok(mut line) => {
            line.push(0x0a);
            Ok(line)
        },
        Err(e) => Err(e),
    }
}

/// The members of an import's parameters. A post-Replace import has no passphrase: the
/// daemon reuses the one it held across the wipe, so the member is left out rather than
/// sent as null.
pub open spec fn import_members(
    ufvk: Seq<char>,
    birthday: serde_json::Value,
    indexer_uri: Seq<char>,
    network: Seq<char>,
    passphrase: Option<Seq<char>>,
) -> Seq<json::MemberView> {
    let always = seq![
        json::MemberView { name: "ufvk"@, value: json::string_value(ufvk) },
        json::MemberView { name: "birthday"@, value: birthday },
        json::MemberView { name: "indexerUri"@, value: json::string_value(indexer_uri) },
        json::MemberView { name: "network"@, value: json::string_value(network) },
    ];
    match passphrase {
        Some(p) => always.push(
            json::MemberView { name: "passphrase"@, value: json::string_value(p) },
        ),
        None => always,
    }
}

/// The members of an import's parameters, by name.
proof fn import_members_by_name(
    ufvk: Seq<char>,
    birthday: serde_json::Value,
    indexer_uri: Seq<char>,
    network: Seq<char>,
    passphrase: Option<Seq<char>>,
)
    ensures
        json::distinct_names(import_members(ufvk, birthday, indexer_uri, network, passphrase)),
        ({
            let m = json::by_name(
                import_members(ufvk, birthday, indexer_uri, network, passphrase),
            );
            &&& m.dom().contains("ufvk"@) && m["ufvk"@] == json::string_value(ufvk)
            &&& m.dom().contains("birthday"@) && m["birthday"@] == birthday
            &&& m.dom().contains("indexerUri"@) && m["indexerUri"@] == json::string_value(
                indexer_uri,
            )
            &&& m.dom().contains("network"@) && m["network"@] == json::string_value(network)
            &&& match passphrase {
                Some(p) => m.dom().contains("passphrase"@) && m["passphrase"@]
                    == json::string_value(p),
                None => !m.dom().contains("passphrase"@),
            }
        }),
{
    reveal_strlit("ufvk");
    reveal_strlit("birthday");
    reveal_strlit("indexerUri");
    reveal_strlit("network");
    reveal_strlit("passphrase");
    let always = import_members(ufvk, birthday, indexer_uri, network, None);
    let all = import_members(ufvk, birthday, indexer_uri, network, passphrase);
    if passphrase is Some {
        assert(all.drop_last() =~= always);
    }
    let three = always.drop_last();
    let two = three.drop_last();
    let one = two.drop_last();
    assert(one.drop_last() =~= seq![]);
    assert("ufvk"@[0] == 'u' && "birthday"@[0] == 'b' && "indexerUri"@[0] == 'i');
    assert("network"@[0] == 'n' && "passphrase"@[0] == 'p');
    assert(json::by_name(one) == json::by_name(seq![]).insert("ufvk"@, json::string_value(ufvk)));
    assert(json::by_name(two) == json::by_name(one).insert("birthday"@, birthday));
    assert(json::by_name(three) == json::by_name(two).insert(
        "indexerUri"@,
        json::string_value(indexer_uri),
    ));
    assert(json::by_name(always) == json::by_name(three).insert(
        "network"@,
        json::string_value(network),
    ));
}

/// The parameters of an import.
pub fn import_params(
    ufvk: &str,
    birthday: serde_json::Value,
    indexer_uri: &str,
    network: &str,
    passphrase: &Option<String>,
) -> (r: serde_json::Value)
    ensures
        r == json::object_value(
            import_members(
                ufvk@,
                birthday,
                indexer_uri@,
                network@,
                ipc::text_view(*passphrase),
            ),
        ),
        json::text_at(r, "ufvk"@) == Some(ufvk@),
        json::member(r, "birthday"@) == Some(birthday),
        json::text_at(r, "indexerUri"@) == Some(indexer_uri@),
        json::text_at(r, "network"@) == Some(network@),
        json::text_at(r, "passphrase"@) == ipc::text_view(*passphrase),
        passphrase is None ==> json::member(r, "passphrase"@) is None,
{
    let mut members: Vec<Member> = Vec::new();
    members.push(Member { name: "ufvk".to_string(), value: json::string(ufvk) });
    members.push(Member { name: "birthday".to_string(), value: birthday });
    members.push(Member { name: "indexerUri".to_string(), value: json::string(indexer_uri) });
    members.push(Member { name: "network".to_string(), value: json::string(network) });
    if let Some(p) = passphrase {
        members.push(Member { name: "passphrase".to_string(), value: json::string(p.as_str()) });
    }
    proof {
        let sent = ipc::text_view(*passphrase);
        assert(json::member_views(members@) =~= import_members(
            ufvk@,
            birthday,
            indexer_uri@,
            network@,
            sent,
        ));
        import_members_by_name(ufvk@, birthday, indexer_uri@, network@, sent);
    }
    json::object(members)
}

/// What a reply says, from its members: its result where it is marked as good, and
/// otherwise its error. A result that is missing is nothing.
pub fn reply_outcome(
    good: Option<bool>,
    result: Option<serde_json::Value>,
    error: Option<String>,
) -> (r: Result<Option<serde_json::Value>, String>)
    ensures
        match r {
            Ok(value) => good == Some(true) && value == result,
            Err(e) => good != Some(true) && match error {
                Some(text) => e == text,
                None => e@ == "daemon error"@,
            },
        },
{
    let good = match good {
        Some(good) => good,
        None => false,
    };
    if good {
        Ok(result)
    } else {
        match error {
            Some(text) => Err(text),
            None => Err("daemon error".to_string()),
        }
    }
}

/// What a reply's line says.
pub fn read_reply(line: &str) -> (r: Result<Option<serde_json::Value>, String>)
    ensures
        match json::parsed(line@) {
            Err(e) => r is Err && r->Err_0@ == e,
            Ok(reply) => match r {
                Ok(value) => json::truth_at(reply, "ok"@) == Some(true) && value == json::member(
                    reply,
                    "result"@,
                ),
                Err(e) => json::truth_at(reply, "ok"@) != Some(true) && e@ == match json::text_at(
                    reply,
                    "error"@,
                ) {
                    Some(text) => text,
                    None => "daemon error"@,
                },
            },
        },
{
    let reply = match json::parse(line) {
        Ok(reply) => reply,
        Err(e) => return Err(e),
    };
    let result = match json::value_at(&reply, "result") {
        Some(value) => Some(json::copy(value)),
        None => None,
    };
    reply_outcome(json::bool_member(&reply, "ok"), result, json::string_member(&reply, "error"))
}

/// The event on a line of the subscription, if the line carries one. The leading ack
/// carries none, and a line that is no JSON is passed over.
pub fn pushed_event(line: &str) -> (r: Option<serde_json::Value>)
    ensures
        r == match json::parsed(line@) {
            Ok(value) => if json::member(value, "event"@) is Some {
                Some(value)
            } else {
                None
            },
            Err(_) => None,
        },
{
    match json::parse(line) {
        Ok(value) => if json::value_at(&value, "event").is_some() {
            Some(value)
        } else {
            None
        },
        Err(_) => None,
    }
}

// ---------------------------------------------------------------------------
// Deep links
// ---------------------------------------------------------------------------

/// The deep links among the arguments that the app was opened with, in their order.
pub open spec fn links_in(args: Seq<String>) -> Seq<String>
    decreases args.len(),
{
    if args.len() == 0 {
        seq![]
    } else {
        let before = links_in(args.drop_last());
        if text::begins_with(args.last()@, "pendrake://"@) {
            before.push(args.last())
        } else {
            before
        }
    }
}

/// The deep links among the arguments that the app was opened with.
pub fn deep_links(args: &Vec<String>) -> (r: Vec<String>)
    ensures
        r@ == links_in(args@),
{
    let mut links: Vec<String> = Vec::new();
    let mut i: usize = 0;
    assert(args@.take(0) =~= seq![]);
    while i < args.len()
        invariant
            i <= args@.len(),
            links@ == links_in(args@.take(i as int)),
        decreases args@.len() - i,
    {
        assert(args@.take(i + 1).drop_last() =~= args@.take(i as int));
        if text::text_begins_with(args[i].as_str(), "pendrake://") {
            links.push(args[i].clone());
        }
        i = i + 1;
    }
    assert(args@.take(args@.len() as int) =~= args@);
    links
}

// ---------------------------------------------------------------------------
// What the client looks for and lets through
// ---------------------------------------------------------------------------

/// What the user means to do and what has to be seen of the wallets on disk starts the
/// daemon; reads of an open wallet, the session's lock and the event subscription do not.
pub proof fn only_intent_spawns_the_daemon(m: Method)
    ensures
        may_spawn(m.name()) <==> m is GetWalletState || m is ListWallets || m is GetSyncStatus
            || m is ParseUfvk || m is ImportUfvk || m is Unlock || m is SyncWallet
            || m is SelectWallet || m is RemoveWallet || m is SetIndexer || m is SetNotifications
            || m is SetFiatEnabled || m is SetDiscreet || m is SetWalletLabel || m is Shutdown,
{
    if m.name() == Method::GetWalletState.name() {
        crate::gate::names_are_distinct(m, Method::GetWalletState);
    }
    if m.name() == Method::ListWallets.name() {
        crate::gate::names_are_distinct(m, Method::ListWallets);
    }
    if m.name() == Method::GetSyncStatus.name() {
        crate::gate::names_are_distinct(m, Method::GetSyncStatus);
    }
    if m.name() == Method::ParseUfvk.name() {
        crate::gate::names_are_distinct(m, Method::ParseUfvk);
    }
    if m.name() == Method::ImportUfvk.name() {
        crate::gate::names_are_distinct(m, Method::ImportUfvk);
    }
    if m.name() == Method::Unlock.name() {
        crate::gate::names_are_distinct(m, Method::Unlock);
    }
    if m.name() == Method::SyncWallet.name() {
        crate::gate::names_are_distinct(m, Method::SyncWallet);
    }
    if m.name() == Method::SelectWallet.name() {
        crate::gate::names_are_distinct(m, Method::SelectWallet);
    }
    if m.name() == Method::RemoveWallet.name() {
        crate::gate::names_are_distinct(m, Method::RemoveWallet);
    }
    if m.name() == Method::SetIndexer.name() {
        crate::gate::names_are_distinct(m, Method::SetIndexer);
    }
    if m.name() == Method::SetNotifications.name() {
        crate::gate::names_are_distinct(m, Method::SetNotifications);
    }
    if m.name() == Method::SetFiatEnabled.name() {
        crate::gate::names_are_distinct(m, Method::SetFiatEnabled);
    }
    if m.name() == Method::SetDiscreet.name() {
        crate::gate::names_are_distinct(m, Method::SetDiscreet);
    }
    if m.name() == Method::SetWalletLabel.name() {
        crate::gate::names_are_distinct(m, Method::SetWalletLabel);
    }
    if m.name() == Method::Shutdown.name() {
        crate::gate::names_are_distinct(m, Method::Shutdown);
    }
}

/// The daemon is looked for beside the GUI first, then where a build from the GUI's place
/// puts it, then where one from the working directory does, a release before a debug build
/// each time.
pub proof fn the_daemon_beside_comes_first(
    platform: Platform,
    dir: Seq<u8>,
    suffix: Seq<char>,
)
    ensures
        ({
            let all = daemon_places(platform, Some(dir), suffix);
            let plain = daemon_places(platform, None, suffix);
            &&& all.len() == 7 && plain.len() == 4
            &&& all[0] == platform.within(dir, "pendraked"@ + suffix)
            &&& all[1] == platform.within(
                dir,
                "../../../crates/target/release/pendraked"@ + suffix,
            )
            &&& all[2] == platform.within(dir, "../../../crates/target/debug/pendraked"@ + suffix)
            &&& all.skip(3) == plain
            &&& plain[0] == encode_utf8("crates/target/release/pendraked"@ + suffix)
            &&& plain[1] == encode_utf8("../crates/target/release/pendraked"@ + suffix)
            &&& plain[2] == encode_utf8("crates/target/debug/pendraked"@ + suffix)
            &&& plain[3] == encode_utf8("../crates/target/debug/pendraked"@ + suffix)
        }),
{
    let all = daemon_places(platform, Some(dir), suffix);
    let plain = daemon_places(platform, None, suffix);
    assert(all.skip(3) =~= plain);
}

/// The arguments that are links of the app are let through, in their order, and no other
/// one is.
pub proof fn only_links_of_the_app_are_let_through(args: Seq<String>, arg: String)
    ensures
        args.len() == 0 ==> links_in(args).len() == 0,
        (exists|rest: Seq<char>| arg@ == #[trigger] ("pendrake://"@ + rest)) ==> links_in(
            args.push(arg),
        ) == links_in(args).push(arg),
        !(exists|rest: Seq<char>| arg@ == #[trigger] ("pendrake://"@ + rest)) ==> links_in(
            args.push(arg),
        ) == links_in(args),
{
    assert(args.push(arg).drop_last() =~= args);
    text::parts_occur_between_others(arg@, "pendrake://"@);
}

/// The bridge waits half a second at first and ten seconds at most, and a daemon is spawned
/// once in ten seconds at most.
pub proof fn the_client_waits_within_bounds()
    ensures
        bridge_shortest().nanos == 500_000_000,
        bridge_longest().nanos == 10_000_000_000,
        SPAWN_COOLDOWN_SECS == 10,
{
}

/// A request carries its number, its method and its parameters under their own names.
pub proof fn a_request_has_its_three_members(method: Seq<char>, params: serde_json::Value)
    ensures
        ({
            let all = request_members(method, params);
            &&& all.len() == 3
            &&& all[0].name == "id"@ && all[0].value == json::number_value(1)
            &&& all[1].name == "method"@ && all[1].value == json::string_value(method)
            &&& all[2].name == "params"@ && all[2].value == params
        }),
{
}

/// The first place at which there is something is one where there is, with none before.
pub proof fn the_first_place_has_none_before(exists_at: Seq<bool>, i: int, j: int)
    requires
        first_existing(exists_at, i),
        0 <= j < exists_at.len(),
        exists_at[j],
    ensures
        0 <= i <= j,
        exists_at[i],
{
}

/// The places are handed out in their order, each as it is.
pub proof fn places_are_handed_out_in_order(
    platform: Platform,
    exe_dir: Option<Vec<u8>>,
    suffix: &str,
    r: Vec<Vec<u8>>,
    i: int,
)
    requires
        call_ensures(daemon_candidates, (platform, &exe_dir, suffix), r),
        0 <= i < r@.len(),
    ensures
        r@.len() == daemon_places(platform, paths::bytes_view(exe_dir), suffix@).len(),
        r@[i]@ == daemon_places(platform, paths::bytes_view(exe_dir), suffix@)[i],
        exe_dir matches Some(dir) ==> paths::bytes_view(exe_dir) == Some(dir@),
        exe_dir is None ==> paths::bytes_view(exe_dir) is None,
{
    assert(path_views(r@).len() == r@.len());
    assert(path_views(r@)[i] == r@[i]@);
}

/// Client and daemon meet: both derive the endpoint from one data root, and so the same.
pub proof fn client_and_daemon_meet(
    platform: Platform,
    dir_override: Option<Vec<u8>>,
    data_dir: Option<Vec<u8>>,
    served: paths::Paths,
    daemon: String,
    client: String,
)
    requires
        call_ensures(
            paths::Paths::resolve,
            (platform, dir_override, data_dir),
            Ok::<paths::Paths, String>(served),
        ),
        call_ensures(paths::Paths::endpoint, (&served,), daemon),
        call_ensures(
            endpoint,
            (platform, dir_override, data_dir),
            Ok::<String, String>(client),
        ),
    ensures
        daemon@ == client@,
{
    paths::paths_are_what_they_hold(served);
}

/// A reply is good exactly where it says so, and then it is its result; any other is its
/// error, or one in its place. A line that is no JSON is an error of its own.
pub proof fn a_reply_is_read_as_it_says(
    line: &str,
    r: Result<Option<serde_json::Value>, String>,
)
    requires
        call_ensures(read_reply, (line,), r),
    ensures
        json::parsed(line@) matches Ok(reply) ==> {
            &&& r is Ok <==> json::truth_at(reply, "ok"@) == Some(true)
            &&& r is Ok ==> r->Ok_0 == json::member(reply, "result"@)
            &&& r is Err ==> (json::text_at(reply, "error"@) matches Some(text) ==> r->Err_0@
                == text)
            &&& r is Err && json::text_at(reply, "error"@) is None ==> r->Err_0@ == "daemon error"@
        },
        json::parsed(line@) matches Err(e) ==> r is Err && r->Err_0@ == e,
{
}

/// A line of the subscription is an event exactly where it has one, and then it is passed on
/// as it is.
pub proof fn only_events_are_passed_on(line: &str, r: Option<serde_json::Value>)
    requires
        call_ensures(pushed_event, (line,), r),
    ensures
        r is Some <==> json::parsed(line@) is Ok && json::member(
            json::parsed(line@)->Ok_0,
            "event"@,
        ) is Some,
        r matches Some(event) ==> json::parsed(line@) == Ok::<serde_json::Value, Seq<char>>(event),
{
}

/// The daemon that is run is the override wherever there is one, and else the first that is
/// found.
pub proof fn an_override_is_run_first(
    bin_override: Option<Vec<u8>>,
    places: Vec<Vec<u8>>,
    exists_at: Vec<bool>,
    r: Option<Vec<u8>>,
)
    requires
        places@.len() == exists_at@.len(),
        call_ensures(daemon_bin, (bin_override, &places, &exists_at), r),
    ensures
        bin_override matches Some(bin) ==> r is Some && r->0@ == bin@,
        bin_override is None && r is Some ==> exists|i: int|
            #![trigger places@[i]]
            0 <= i < places@.len() && exists_at@[i] && r->0@ == places@[i]@ && forall|k: int|
                0 <= k < i ==> !(#[trigger] exists_at@[k]),
{
    if bin_override is None && r is Some {
        let i = choose|i: int| #[trigger] first_existing(exists_at@, i) && r->0@ == places@[i]@;
        assert(places@[i]@ == r->0@);
    }
}

/// Two spawns lie apart at least as long as they should, and a first one may be at any time.
pub proof fn spawns_lie_apart(
    last: Option<Instant>,
    now: Instant,
    cooldown: Duration,
    r: bool,
)
    requires
        call_ensures(spawn_due, (last, now, cooldown), r),
    ensures
        last is None ==> r,
        last matches Some(t) ==> (t.nanos <= now.nanos ==> (r <==> t.nanos + cooldown.nanos
            <= now.nanos)),
{
}

/// A connection that is there is used; else other requests are kept from spawning, then the
/// daemon is spawned, and then it is waited for as often as there are attempts left.
pub proof fn dialling_goes_by_its_steps(dial: Dial, connected: bool, r: (Dial, DialStep))
    requires
        dial matches Dial::Waiting(left) ==> left > 0,
        call_ensures(Dial::tried, (dial, connected), r),
    ensures
        connected <==> r.1 is Connected,
        !connected && dial is First ==> r.0 is Gated && r.1 is TakeGate,
        !connected && dial is Gated ==> r.0 == Dial::Waiting(50) && r.1 is SpawnAndWait,
        !connected ==> (dial matches Dial::Waiting(left) ==> {
            &&& left > 1 ==> r.0 == Dial::Waiting((left - 1) as u32) && r.1 is Wait
            &&& left == 1 ==> r.1 is GiveUp
        }),
{
}

/// The bridge waits its backoff out, which starts over after a clean end and doubles up to
/// ten seconds.
pub proof fn the_bridge_backs_off(cleanly: bool)
    ensures
        forall|m: &mut Bridge, r: Duration| #[trigger]
            call_ensures(Bridge::ended, (m, cleanly), r) ==> {
                let (before, after) = (*m, *final(m));
                &&& cleanly ==> r.nanos == 500_000_000
                &&& !cleanly ==> r == before.backoff
                &&& 2 * r.nanos <= 10_000_000_000 ==> after.backoff.nanos == 2 * r.nanos
                &&& 2 * r.nanos > 10_000_000_000 ==> after.backoff.nanos == 10_000_000_000
            },
{
}

/// A request's line is the request itself, and a line's end behind it.
pub proof fn a_request_is_one_line(
    method: &str,
    params: serde_json::Value,
    value: serde_json::Value,
    line: Vec<u8>,
)
    requires
        call_ensures(request_value, (method, &params), value),
        call_ensures(request_line, (method, &params), Ok::<Vec<u8>, String>(line)),
    ensures
        json::text_at(value, "method"@) == Some(method@),
        json::member(value, "params"@) == Some(params),
        line@.len() > 0 && line@.last() == 0x0a,
        line@.drop_last() == json::value_bytes(value),
{
    assert(line@.drop_last() =~= json::value_bytes(value));
}

/// An import's parameters are read back as they were given, and a passphrase that was not
/// given is not there.
pub proof fn import_parameters_are_read_back(
    ufvk: &str,
    birthday: serde_json::Value,
    indexer_uri: &str,
    network: &str,
    passphrase: Option<String>,
    r: serde_json::Value,
)
    requires
        call_ensures(import_params, (ufvk, birthday, indexer_uri, network, &passphrase), r),
    ensures
        json::text_at(r, "ufvk"@) == Some(ufvk@),
        json::member(r, "birthday"@) == Some(birthday),
        json::text_at(r, "indexerUri"@) == Some(indexer_uri@),
        json::text_at(r, "network"@) == Some(network@),
        passphrase matches Some(p) ==> json::text_at(r, "passphrase"@) == Some(p@),
        passphrase is None ==> json::member(r, "passphrase"@) is None,
{
}

} // verus!
