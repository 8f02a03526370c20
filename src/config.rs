//! The client's configuration and what is derived from it: the gateway
//! url, the worker's command line and environment, and where the shared
//! files live under the user's home directory.

use crate::primitives::{trim, trim_of};
use crate::text::{concat2, contains, decimal, decimal_string, is_prefix_of, owned, seq_contains, starts_with};
use vstd::prelude::*;

verus! {

/// The client's settings.
#[derive(Clone, Debug)]
pub struct NodeClientConfig {
    pub host: String,
    pub port: u16,
    pub tls: bool,
    pub tls_fingerprint: Option<String>,
    pub node_id: Option<String>,
    pub display_name: Option<String>,
    pub auto_start_node: bool,
    pub use_exec_host: bool,
    pub exec_host_fallback: bool,
    pub gateway_token: Option<String>,
    pub gateway_password: Option<String>,
    pub install_path: Option<String>,
    pub use_bundled_runtime: bool,
}

/// The value of a flag that defaults to on.
pub fn default_true() -> (r: bool)
    ensures
        r,
{
    true
}

/// The default gateway host.
pub const DEFAULT_HOST: &'static str = "127.0.0.1";

/// The default gateway port.
pub const DEFAULT_PORT: u16 = 18789;

impl Default for NodeClientConfig {
    fn default() -> (r: NodeClientConfig)
        ensures
            r.host@ == DEFAULT_HOST@,
            r.port == DEFAULT_PORT,
            !r.tls,
            r.tls_fingerprint is None,
            r.node_id is None,
            r.display_name is None,
            r.auto_start_node,
            !r.use_exec_host,
            r.exec_host_fallback,
            r.gateway_token is None,
            r.gateway_password is None,
            r.install_path is None,
            r.use_bundled_runtime,
    {
        NodeClientConfig {
            host: owned(DEFAULT_HOST),
            port: DEFAULT_PORT,
            tls: false,
            tls_fingerprint: None,
            node_id: None,
            display_name: None,
            auto_start_node: true,
            use_exec_host: false,
            exec_host_fallback: default_true(),
            gateway_token: None,
            gateway_password: None,
            install_path: None,
            use_bundled_runtime: default_true(),
        }
    }
}

/// `scheme://host:port`, with `wss` under TLS and `ws` otherwise.
pub open spec fn gateway_url_spec(tls: bool, host: Seq<char>, port: u16) -> Seq<char> {
    (if tls { seq!['w', 's', 's'] } else { seq!['w', 's'] }) + seq![':', '/', '/'] + host + seq![':'] + decimal(
        port as nat,
    )
}

/// The url of the gateway at `host:port`.
pub fn gateway_url_for(host: &str, port: u16, tls: bool) -> (r: String)
    ensures
        r@ == gateway_url_spec(tls, host@, port),
{
    proof {
        reveal_strlit("wss://");
        reveal_strlit("ws://");
        reveal_strlit(":");
    }
    let mut s = if tls { owned("wss://") } else { owned("ws://") };
    s.append(host);
    s.append(":");
    let digits = decimal_string(port as u64);
    s.append(digits.as_str());
    s
}

impl NodeClientConfig {
    /// The url of the configured gateway.
    pub fn gateway_url(&self) -> (r: String)
        ensures
            r@ == gateway_url_spec(self.tls, self.host@, self.port),
    {
        gateway_url_for(self.host.as_str(), self.port, self.tls)
    }
}

/// `[flag, value]` for an optional setting whose trimmed value is not
/// empty; nothing otherwise.
pub open spec fn trimmed_flag(flag: Seq<char>, v: Option<String>) -> Seq<Seq<char>> {
    match v {
        Some(x) => if trim_of(x@).len() > 0 { seq![flag, trim_of(x@)] } else { seq![] },
        None => seq![],
    }
}

/// The arguments the worker is started with, after its program.
pub open spec fn node_args_spec(c: NodeClientConfig) -> Seq<Seq<char>> {
    seq!["node"@, "run"@, "--host"@, c.host@, "--port"@, decimal(c.port as nat)] + (if c.tls {
        seq!["--tls"@]
    } else {
        seq![]
    }) + trimmed_flag("--tls-fingerprint"@, c.tls_fingerprint) + trimmed_flag("--node-id"@, c.node_id)
        + trimmed_flag("--display-name"@, c.display_name) + password_flag(c.gateway_password)
}

/// `[--password, value]` for a password that is set and not empty.
pub open spec fn password_flag(v: Option<String>) -> Seq<Seq<char>> {
    match v {
        Some(p) => if p@.len() > 0 { seq!["--password"@, p@] } else { seq![] },
        None => seq![],
    }
}

/// The texts of a list of strings.
pub open spec fn texts(v: Seq<String>) -> Seq<Seq<char>> {
    v.map_values(|s: String| s@)
}

fn push_text(v: &mut Vec<String>, s: String)
    ensures
        texts(final(v)@) == texts(old(v)@).push(s@),
{
    let ghost before = v@;
    v.push(s);
    assert(texts(v@) =~= texts(before).push(s@));
}

fn push_trimmed_flag(v: &mut Vec<String>, flag: &str, value: &Option<String>)
    ensures
        texts(final(v)@) == texts(old(v)@) + trimmed_flag(flag@, *value),
{
    match value {
        Some(x) => {
            let t = trim(x.as_str());
            if t.unicode_len() > 0 {
                let ghost before = texts(v@);
                push_text(v, owned(flag));
                push_text(v, t);
                assert(texts(v@) =~= before + trimmed_flag(flag@, *value));
            } else {
                assert(texts(v@) =~= texts(v@) + trimmed_flag(flag@, *value));
            }
        },
        None => {
            assert(texts(v@) =~= texts(v@) + trimmed_flag(flag@, *value));
        },
    }
}

/// The worker's arguments: `node run --host H --port P`, then `--tls`,
/// the trimmed TLS fingerprint, node id and display name when set and not
/// blank, and the password when set and not empty.
pub fn node_run_args(c: &NodeClientConfig) -> (r: Vec<String>)
    ensures
        texts(r@) == node_args_spec(*c),
{
    let mut v: Vec<String> = Vec::new();
    push_text(&mut v, owned("node"));
    push_text(&mut v, owned("run"));
    push_text(&mut v, owned("--host"));
    push_text(&mut v, c.host.clone());
    push_text(&mut v, owned("--port"));
    push_text(&mut v, decimal_string(c.port as u64));
    let ghost base = texts(v@);
    assert(base =~= seq!["node"@, "run"@, "--host"@, c.host@, "--port"@, decimal(c.port as nat)]);
    if c.tls {
        push_text(&mut v, owned("--tls"));
    }
    let ghost with_tls = texts(v@);
    assert(with_tls =~= base + (if c.tls { seq!["--tls"@] } else { Seq::<Seq<char>>::empty() }));
    push_trimmed_flag(&mut v, "--tls-fingerprint", &c.tls_fingerprint);
    push_trimmed_flag(&mut v, "--node-id", &c.node_id);
    push_trimmed_flag(&mut v, "--display-name", &c.display_name);
    let ghost before_pw = texts(v@);
    match &c.gateway_password {
        Some(p) => {
            if p.unicode_len() > 0 {
                push_text(&mut v, owned("--password"));
                push_text(&mut v, p.clone());
            }
        },
        None => {},
    }
    let ghost pw = password_flag(c.gateway_password);
    assert(texts(v@) =~= before_pw + pw);
    assert(node_args_spec(*c) =~= with_tls + trimmed_flag("--tls-fingerprint"@, c.tls_fingerprint) + trimmed_flag(
        "--node-id"@,
        c.node_id,
    ) + trimmed_flag("--display-name"@, c.display_name) + pw);
    v
}

/// The texts of a list of name/value pairs.
pub open spec fn pair_texts(v: Seq<(String, String)>) -> Seq<(Seq<char>, Seq<char>)> {
    v.map_values(|p: (String, String)| (p.0@, p.1@))
}

/// The Node.js option added to the worker's `NODE_OPTIONS`.
pub const NODE_WARNING_FLAG: &'static str = "--disable-warning=DEP0040";

/// The separator of entries in `PATH`.
pub const PATH_SEP: char = ':';

/// The environment the worker is given on top of the inherited one:
/// exec-host routing when enabled, the gateway token when set, the
/// existing `NODE_OPTIONS` with the warning flag appended, and the
/// discovered binary directory put first on `PATH`.
pub open spec fn node_env_spec(c: NodeClientConfig, node_options: Seq<char>, bin_dir: Seq<char>, current_path: Seq<char>) -> Seq<(Seq<char>, Seq<char>)> {
    (if c.use_exec_host {
        seq![("OPENCLAW_NODE_EXEC_HOST"@, "app"@)] + (if !c.exec_host_fallback {
            seq![("OPENCLAW_NODE_EXEC_FALLBACK"@, "0"@)]
        } else {
            seq![]
        })
    } else {
        seq![]
    }) + token_env(c.gateway_token) + seq![("NODE_OPTIONS"@, if node_options.len() == 0 { NODE_WARNING_FLAG@ } else { node_options + seq![' '] + NODE_WARNING_FLAG@ })] + (if bin_dir.len() > 0 {
        seq![("PATH"@, bin_dir + seq![PATH_SEP] + current_path)]
    } else {
        seq![]
    })
}

/// The gateway token variable, for a token that is set and not empty.
pub open spec fn token_env(t: Option<String>) -> Seq<(Seq<char>, Seq<char>)> {
    match t {
        Some(t) => if t@.len() > 0 { seq![("OPENCLAW_GATEWAY_TOKEN"@, t@)] } else { seq![] },
        None => seq![],
    }
}

fn push_pair(v: &mut Vec<(String, String)>, k: String, val: String)
    ensures
        pair_texts(final(v)@) == pair_texts(old(v)@).push((k@, val@)),
{
    let ghost before = v@;
    let ghost kv = (k@, val@);
    v.push((k, val));
    assert(pair_texts(v@) =~= pair_texts(before).push(kv));
}

/// The worker's extra environment, from the settings, the current
/// `NODE_OPTIONS` and `PATH`, and the directory of the binary found.
pub fn node_env(c: &NodeClientConfig, node_options: &str, bin_dir: &str, current_path: &str) -> (r: Vec<(String, String)>)
    ensures
        pair_texts(r@) == node_env_spec(*c, node_options@, bin_dir@, current_path@),
{
    proof {
        reveal_strlit(" ");
        reveal_strlit(":");
    }
    let mut v: Vec<(String, String)> = Vec::new();
    if c.use_exec_host {
        push_pair(&mut v, owned("OPENCLAW_NODE_EXEC_HOST"), owned("app"));
        if !c.exec_host_fallback {
            push_pair(&mut v, owned("OPENCLAW_NODE_EXEC_FALLBACK"), owned("0"));
        }
    }
    let ghost with_routing = pair_texts(v@);
    match &c.gateway_token {
        Some(t) => if t.unicode_len() > 0 {
            push_pair(&mut v, owned("OPENCLAW_GATEWAY_TOKEN"), t.clone());
        },
        None => {},
    }
    let ghost with_token = pair_texts(v@);
    let opts = if node_options.unicode_len() == 0 {
        owned(NODE_WARNING_FLAG)
    } else {
        let mut o = concat2(node_options, " ");
        o.append(NODE_WARNING_FLAG);
        o
    };
    push_pair(&mut v, owned("NODE_OPTIONS"), opts);
    let ghost with_options = pair_texts(v@);
    if bin_dir.unicode_len() > 0 {
        let mut path = concat2(bin_dir, ":");
        path.append(current_path);
        assert(":"@ =~= seq![PATH_SEP]);
        assert(path@ =~= bin_dir@ + seq![PATH_SEP] + current_path@);
        push_pair(&mut v, owned("PATH"), path);
    }
    proof {
        let a: Seq<(Seq<char>, Seq<char>)> = if c.use_exec_host {
            seq![("OPENCLAW_NODE_EXEC_HOST"@, "app"@)] + (if !c.exec_host_fallback {
                seq![("OPENCLAW_NODE_EXEC_FALLBACK"@, "0"@)]
            } else {
                seq![]
            })
        } else {
            seq![]
        };
        assert(with_routing =~= a);
        let b = token_env(c.gateway_token);
        assert(with_token =~= a + b);
        let ov: Seq<char> = if node_options@.len() == 0 {
            NODE_WARNING_FLAG@
        } else {
            node_options@ + seq![' '] + NODE_WARNING_FLAG@
        };
        assert(opts@ == ov);
        assert(with_options =~= a + b + seq![("NODE_OPTIONS"@, ov)]);
        let d: Seq<(Seq<char>, Seq<char>)> = if bin_dir@.len() > 0 {
            seq![("PATH"@, bin_dir@ + seq![PATH_SEP] + current_path@)]
        } else {
            seq![]
        };
        assert(pair_texts(v@) =~= with_options + d);
        assert(pair_texts(v@) =~= node_env_spec(*c, node_options@, bin_dir@, current_path@));
    }
    v
}

/// The install directory to remember after a start, if any: the directory
/// of a binary found by discovery (not the bundled runtime) that differs
/// from the stored one.
pub fn install_path_to_save(c: &NodeClientConfig, bin_dir: &str, bundled: bool) -> (r: Option<String>)
    ensures
        r is Some <==> (bin_dir@.len() > 0 && !bundled && (match c.install_path {
            Some(p) => p@ != bin_dir@,
            None => true,
        })),
        r is Some ==> r->0@ == bin_dir@,
{
    if bin_dir.unicode_len() == 0 || bundled {
        return None;
    }
    let same = match &c.install_path {
        Some(p) => crate::text::str_eq(p.as_str(), bin_dir),
        None => false,
    };
    if same {
        None
    } else {
        Some(owned(bin_dir))
    }
}

/// `dir` joined with the relative path `name`, as a Unix path.
pub open spec fn join_path(dir: Seq<char>, name: Seq<char>) -> Seq<char> {
    if dir.len() == 0 {
        name
    } else if dir.last() == '/' {
        dir + name
    } else {
        dir + seq!['/'] + name
    }
}

/// Joins a directory and a relative path.
pub fn join(dir: &str, name: &str) -> (r: String)
    ensures
        r@ == join_path(dir@, name@),
{
    proof {
        reveal_strlit("/");
    }
    let n = dir.unicode_len();
    if n == 0 {
        owned(name)
    } else if dir.get_char(n - 1) == '/' {
        concat2(dir, name)
    } else {
        let mut s = concat2(dir, "/");
        s.append(name);
        s
    }
}

/// The directory under the home directory that holds the shared files.
pub open spec fn openclaw_dir_spec(home: Seq<char>) -> Seq<char> {
    join_path(home, ".openclaw"@)
}

/// The file through which the exec host's address and secret are
/// published; an error when the home directory is unknown.
pub fn exec_approvals_path(home: &Option<String>) -> (r: Result<String, String>)
    ensures
        home is None ==> (r matches Err(e) && e@ == "unable to resolve user directories"@),
        home is Some ==> (r matches Ok(p) && p@ == join_path(openclaw_dir_spec(home->0@), "exec-approvals.json"@)),
{
    match home {
        Some(h) => {
            let dir = join(h.as_str(), ".openclaw");
            Ok(join(dir.as_str(), "exec-approvals.json"))
        },
        None => Err(owned("unable to resolve user directories")),
    }
}

/// The exec host's socket path: under the shared directory, or a fixed
/// path under `/tmp` when the home directory is unknown.
pub fn exec_host_socket_path(home: &Option<String>) -> (r: String)
    ensures
        home is None ==> r@ == "/tmp/openclaw-exec-approvals.sock"@,
        home is Some ==> r@ == join_path(openclaw_dir_spec(home->0@), "exec-approvals.sock"@),
{
    match home {
        Some(h) => {
            let dir = join(h.as_str(), ".openclaw");
            join(dir.as_str(), "exec-approvals.sock")
        },
        None => owned("/tmp/openclaw-exec-approvals.sock"),
    }
}

/// Where a worker binary was found, and how.
#[derive(Clone, Debug)]
pub struct DiscoveryResult {
    pub bin_dir: String,
    pub bin_path: String,
    pub bin_name: String,
    pub method: String,
}

/// The first finding of the discovery strategies, tried in order: the
/// login shell's `PATH`, the well-known install directories, this
/// process's `PATH`.
pub fn discover_openclaw_binary(
    login_shell: Option<DiscoveryResult>,
    well_known: Option<DiscoveryResult>,
    process_path: Option<DiscoveryResult>,
) -> (r: Option<DiscoveryResult>)
    ensures
        login_shell is Some ==> r == login_shell,
        login_shell is None && well_known is Some ==> r == well_known,
        login_shell is None && well_known is None ==> r == process_path,
{
    match login_shell {
        Some(d) => Some(d),
        None => match well_known {
            Some(d) => Some(d),
            None => process_path,
        },
    }
}

/// The pieces of `s` between occurrences of `sep`, in order; there is one
/// more piece than separators, and pieces may be empty.
pub open spec fn split_on(s: Seq<char>, sep: char) -> Seq<Seq<char>>
    decreases s.len(),
{
    if s.len() == 0 {
        seq![Seq::<char>::empty()]
    } else {
        let rest = split_on(s.drop_last(), sep);
        if s.last() == sep {
            rest.push(Seq::<char>::empty())
        } else {
            rest.update(rest.len() - 1, rest.last().push(s.last()))
        }
    }
}

/// Splits `s` at every `sep`.
pub fn split(s: &str, sep: char) -> (r: Vec<String>)
    ensures
        texts(r@) == split_on(s@, sep),
{
    let cs = crate::text::chars_of(s);
    let n = cs.len();
    let mut pieces: Vec<String> = Vec::new();
    let mut start: usize = 0;
    let mut i: usize = 0;
    proof {
        assert(s@.subrange(0, 0) =~= Seq::<char>::empty());
        assert(texts(pieces@).push(s@.subrange(0, 0)) =~= seq![Seq::<char>::empty()]);
    }
    while i < n
        invariant
            cs@ == s@,
            n == s@.len(),
            start <= i <= n,
            split_on(s@.subrange(0, i as int), sep) == texts(pieces@).push(s@.subrange(start as int, i as int)),
        decreases n - i,
    {
        let c = cs[i];
        let ghost pre = s@.subrange(0, i as int);
        proof {
            assert(s@.subrange(0, i + 1).drop_last() =~= pre);
            assert(s@.subrange(0, i + 1).last() == c);
        }
        if c == sep {
            let piece = owned(s.substring_char(start, i));
            let ghost before = texts(pieces@);
            pieces.push(piece);
            proof {
                assert(texts(pieces@) =~= before.push(s@.subrange(start as int, i as int)));
                assert(s@.subrange(i + 1, i + 1) =~= Seq::<char>::empty());
            }
            start = i + 1;
        } else {
            proof {
                assert(s@.subrange(start as int, i as int).push(c) =~= s@.subrange(start as int, i + 1));
                assert(texts(pieces@).push(s@.subrange(start as int, i as int)).update(
                    texts(pieces@).len() as int,
                    s@.subrange(start as int, i + 1),
                ) =~= texts(pieces@).push(s@.subrange(start as int, i + 1)));
            }
        }
        i = i + 1;
    }
    let last = owned(s.substring_char(start, n));
    let ghost before = texts(pieces@);
    pieces.push(last);
    proof {
        assert(s@.subrange(0, n as int) =~= s@);
        assert(texts(pieces@) =~= before.push(s@.subrange(start as int, n as int)));
    }
    pieces
}

/// The worker binary's file name.
pub const BIN_NAME: &'static str = "openclaw";

/// `p` is one of the listed paths.
pub open spec fn listed(files: Seq<String>, p: Seq<char>) -> bool {
    exists|i: int| 0 <= i < files.len() && #[trigger] files[i]@ == p
}

/// The `k`-th directory of a path list holds the binary: its trimmed text
/// is not empty and the binary's path in it is one of the known files.
pub open spec fn dir_holds_binary(pieces: Seq<Seq<char>>, files: Seq<String>, k: int) -> bool {
    &&& trim_of(pieces[k]).len() > 0
    &&& listed(files, join_path(trim_of(pieces[k]), BIN_NAME@))
}

/// No directory of the list holds the binary.
pub open spec fn no_dir_holds_binary(pieces: Seq<Seq<char>>, files: Seq<String>) -> bool {
    forall|k: int| 0 <= k < pieces.len() ==> !dir_holds_binary(pieces, files, k)
}

/// `d` reports the first directory of the list that holds the binary.
pub open spec fn first_holding_dir(pieces: Seq<Seq<char>>, files: Seq<String>, method: Seq<char>, d: DiscoveryResult) -> bool {
    exists|k: int|
        0 <= k < pieces.len() && dir_holds_binary(pieces, files, k) && (forall|j: int|
            0 <= j < k ==> !dir_holds_binary(pieces, files, j)) && d.bin_dir@ == trim_of(pieces[k]) && d.bin_path@
            == join_path(trim_of(pieces[k]), BIN_NAME@) && d.bin_name@ == BIN_NAME@ && d.method@ == method
}

fn is_listed(files: &Vec<String>, p: &str) -> (r: bool)
    ensures
        r == listed(files@, p@),
{
    let mut i: usize = 0;
    while i < files.len()
        invariant
            i <= files@.len(),
            forall|j: int| 0 <= j < i ==> #[trigger] files@[j]@ != p@,
        decreases files@.len() - i,
    {
        if crate::text::str_eq(files[i].as_str(), p) {
            return true;
        }
        i = i + 1;
    }
    false
}

/// Looks for the worker binary in a `PATH`-style list of directories,
/// each trimmed and blank ones skipped, taking the first directory whose
/// binary path is among `files`, the paths known to be regular files.
pub fn search_path_string(path_str: &str, method: &str, files: &Vec<String>) -> (r: Option<DiscoveryResult>)
    ensures
        r is None <==> no_dir_holds_binary(split_on(path_str@, PATH_SEP), files@),
        r matches Some(d) ==> first_holding_dir(split_on(path_str@, PATH_SEP), files@, method@, d),
{
    let pieces = split(path_str, PATH_SEP);
    let ghost ps = split_on(path_str@, PATH_SEP);
    let mut k: usize = 0;
    while k < pieces.len()
        invariant
            ps == split_on(path_str@, PATH_SEP),
            texts(pieces@) == ps,
            k <= pieces@.len(),
            forall|j: int| 0 <= j < k ==> !dir_holds_binary(ps, files@, j),
        decreases pieces@.len() - k,
    {
        assert(pieces@[k as int]@ == ps[k as int]);
        let dir = trim(pieces[k].as_str());
        if dir.unicode_len() > 0 {
            let candidate = join(dir.as_str(), BIN_NAME);
            if is_listed(files, candidate.as_str()) {
                let d = DiscoveryResult {
                    bin_dir: dir,
                    bin_path: candidate,
                    bin_name: owned(BIN_NAME),
                    method: owned(method),
                };
                assert(dir_holds_binary(ps, files@, k as int));
                assert(first_holding_dir(ps, files@, method@, d));
                return Some(d);
            }
        }
        k = k + 1;
    }
    None
}

/// Position `i` of `s` starts the separator `::` of a bundled-runtime
/// command, and no earlier position does.
pub open spec fn first_double_colon(s: Seq<char>, i: int) -> bool {
    &&& 0 <= i && i + 1 < s.len()
    &&& s[i] == ':' && s[i + 1] == ':'
    &&& forall|j: int| 0 <= j < i ==> !(#[trigger] s[j] == ':' && s[j + 1] == ':')
}

/// How the worker is launched: a binary, or for the bundled runtime the
/// text `node::script`, which runs `node` with the script as its first
/// argument. Returns the program and that script, split at the first `::`.
pub fn launch_command(bin: &str) -> (r: (String, Option<String>))
    ensures
        r.1 is None ==> r.0@ == bin@ && forall|j: int| 0 <= j < bin@.len() - 1 ==> !(#[trigger] bin@[j] == ':' && bin@[j + 1] == ':'),
        r.1 is Some ==> exists|i: int|
            first_double_colon(bin@, i) && r.0@ == bin@.subrange(0, i) && r.1->0@ == bin@.subrange(i + 2, bin@.len() as int),
{
    let cs = crate::text::chars_of(bin);
    let n = cs.len();
    if n < 2 {
        return (owned(bin), None);
    }
    let last: usize = n - 1;
    let mut i: usize = 0;
    while i < last
        invariant
            cs@ == bin@,
            n == bin@.len(),
            last + 1 == n,
            i <= last,
            forall|j: int| 0 <= j < i && j + 1 < n ==> !(#[trigger] bin@[j] == ':' && bin@[j + 1] == ':'),
        decreases last - i,
    {
        if cs[i] == ':' && cs[i + 1] == ':' {
            let program = owned(bin.substring_char(0, i));
            let script = owned(bin.substring_char(i + 2, n));
            assert(first_double_colon(bin@, i as int));
            return (program, Some(script));
        }
        i = i + 1;
    }
    (owned(bin), None)
}

/// What adding a pattern to the allowlist does: a blank pattern is an
/// error; a pattern already listed (after trimming) changes nothing;
/// otherwise the trimmed pattern is appended.
pub fn allowlist_addition(patterns: &Vec<String>, pattern: &str) -> (r: Result<Option<String>, String>)
    ensures
        trim_of(pattern@).len() == 0 ==> (r matches Err(e) && e@ == "pattern cannot be empty"@),
        trim_of(pattern@).len() > 0 ==> r is Ok,
        r matches Ok(None) ==> exists|i: int| 0 <= i < patterns@.len() && #[trigger] patterns@[i]@ == trim_of(pattern@),
        r matches Ok(Some(t)) ==> t@ == trim_of(pattern@) && forall|i: int| 0 <= i < patterns@.len() ==> #[trigger] patterns@[i]@ != t@,
{
    let t = trim(pattern);
    if t.unicode_len() == 0 {
        return Err(owned("pattern cannot be empty"));
    }
    if is_listed(patterns, t.as_str()) {
        Ok(None)
    } else {
        Ok(Some(t))
    }
}

/// Which allowlist entries stay when `pattern` is removed: every entry
/// whose pattern differs from it exactly.
pub fn allowlist_keep(patterns: &Vec<String>, pattern: &str) -> (r: Vec<bool>)
    ensures
        r@.len() == patterns@.len(),
        forall|i: int| 0 <= i < patterns@.len() ==> #[trigger] r@[i] == (patterns@[i]@ != pattern@),
{
    let mut keep: Vec<bool> = Vec::new();
    let mut i: usize = 0;
    while i < patterns.len()
        invariant
            i <= patterns@.len(),
            keep@.len() == i,
            forall|j: int| 0 <= j < i ==> #[trigger] keep@[j] == (patterns@[j]@ != pattern@),
        decreases patterns@.len() - i,
    {
        keep.push(!crate::text::str_eq(patterns[i].as_str(), pattern));
        i = i + 1;
    }
    keep
}

/// Pieces joined with `sep` between consecutive ones.
pub open spec fn join_with(pieces: Seq<Seq<char>>, sep: char) -> Seq<char>
    decreases pieces.len(),
{
    if pieces.len() == 0 {
        Seq::<char>::empty()
    } else if pieces.len() == 1 {
        pieces[0]
    } else {
        join_with(pieces.drop_last(), sep) + seq![sep] + pieces.last()
    }
}

/// A path-list entry that does not point into the image mounted at
/// `appdir`.
pub open spec fn outside_image(appdir: Seq<char>) -> spec_fn(Seq<char>) -> bool {
    |e: Seq<char>| !is_prefix_of(appdir, e)
}

/// The entries of a path list that stay when running from an image
/// mounted at `appdir`.
pub open spec fn kept_entries(value: Seq<char>, appdir: Seq<char>) -> Seq<Seq<char>> {
    split_on(value, PATH_SEP).filter(outside_image(appdir))
}

/// A path list without its entries that start with `appdir`; `None` when
/// no entry is left.
pub fn sanitized_path_list(value: &str, appdir: &str) -> (r: Option<String>)
    ensures
        kept_entries(value@, appdir@).len() == 0 ==> r is None,
        kept_entries(value@, appdir@).len() > 0 ==> (r matches Some(v) && v@ == join_with(kept_entries(value@, appdir@), PATH_SEP)),
{
    proof {
        reveal_strlit(":");
    }
    let pieces = split(value, PATH_SEP);
    let ghost ps = split_on(value@, PATH_SEP);
    let ghost pred = outside_image(appdir@);
    let mut out = String::new();
    let mut count: usize = 0;
    let mut i: usize = 0;
    proof {
        reveal(Seq::filter);
        assert(ps.subrange(0, 0).filter(pred) =~= Seq::<Seq<char>>::empty());
    }
    while i < pieces.len()
        invariant
            ps == split_on(value@, PATH_SEP),
            pred == outside_image(appdir@),
            texts(pieces@) == ps,
            i <= pieces@.len(),
            count == ps.subrange(0, i as int).filter(pred).len(),
            count <= i,
            out@ == join_with(ps.subrange(0, i as int).filter(pred), PATH_SEP),
        decreases pieces@.len() - i,
    {
        let ghost before = ps.subrange(0, i as int).filter(pred);
        proof {
            assert(ps.subrange(0, i + 1).drop_last() =~= ps.subrange(0, i as int));
            assert(ps.subrange(0, i + 1).last() == ps[i as int]);
            reveal(Seq::filter);
            assert(pieces@[i as int]@ == ps[i as int]);
        }
        if !starts_with(pieces[i].as_str(), appdir) {
            proof {
                assert(pred(ps[i as int]));
                assert(ps.subrange(0, i + 1).filter(pred) == before.push(ps[i as int]));
            }
            if count == 0 {
                out = pieces[i].clone();
                proof {
                    assert(before.push(ps[i as int]).len() == 1);
                    assert(before.push(ps[i as int])[0] == ps[i as int]);
                    assert(out@ == join_with(before.push(ps[i as int]), PATH_SEP));
                }
            } else {
                out.append(":");
                out.append(pieces[i].as_str());
                proof {
                    reveal_strlit(":");
                    assert(":"@ =~= seq![PATH_SEP]);
                    assert(before.push(ps[i as int]).drop_last() =~= before);
                    assert(before.push(ps[i as int]).last() == ps[i as int]);
                    assert(out@ =~= join_with(before, PATH_SEP) + seq![PATH_SEP] + ps[i as int]);
                    assert(out@ == join_with(before.push(ps[i as int]), PATH_SEP));
                }
            }
            count = count + 1;
        } else {
            proof {
                assert(!pred(ps[i as int]));
                assert(ps.subrange(0, i + 1).filter(pred) == before);
            }
        }
        i = i + 1;
    }
    proof {
        assert(ps.subrange(0, pieces@.len() as int) =~= ps);
    }
    if count == 0 {
        None
    } else {
        Some(out)
    }
}

/// What to do with one variable of the inherited environment.
#[derive(Clone, Debug)]
pub enum EnvEdit {
    /// Leave it as inherited.
    Keep,
    /// Give it this value.
    Assign(String),
    /// Remove it.
    Remove,
}

fn restore_or_remove(backup: Option<String>) -> (r: EnvEdit)
    ensures
        backup matches Some(b) ==> r == EnvEdit::Assign(b),
        backup is None ==> r is Remove,
{
    match backup {
        Some(b) => EnvEdit::Assign(b),
        None => EnvEdit::Remove,
    }
}

/// A path-list variable of a process running from an image mounted at
/// `appdir`: its entries inside the image are dropped; when none is left,
/// the value saved before the image started is restored, or the variable
/// removed.
pub fn path_list_edit(value: &str, appdir: &str, backup: Option<String>) -> (r: EnvEdit)
    ensures
        kept_entries(value@, appdir@).len() > 0 ==> (r matches EnvEdit::Assign(v) && v@ == join_with(kept_entries(value@, appdir@), PATH_SEP)),
        kept_entries(value@, appdir@).len() == 0 && backup is Some ==> r == EnvEdit::Assign(backup->0),
        kept_entries(value@, appdir@).len() == 0 && backup is None ==> r is Remove,
{
    match sanitized_path_list(value, appdir) {
        Some(v) => EnvEdit::Assign(v),
        None => restore_or_remove(backup),
    }
}

/// A single-path variable: when it mentions the image it is restored to
/// its saved value or removed; otherwise kept.
pub fn point_var_edit(value: &str, appdir: &str, backup: Option<String>) -> (r: EnvEdit)
    ensures
        !seq_contains(value@, appdir@) ==> r is Keep,
        seq_contains(value@, appdir@) && backup is Some ==> r == EnvEdit::Assign(backup->0),
        seq_contains(value@, appdir@) && backup is None ==> r is Remove,
{
    if contains(value, appdir) {
        restore_or_remove(backup)
    } else {
        EnvEdit::Keep
    }
}

/// Credentials found in the command-line tool's configuration.
#[derive(Clone, Debug)]
pub struct ImportedAuth {
    pub token: Option<String>,
    pub password: Option<String>,
}

/// The gateway section of the command-line tool's configuration.
#[derive(Clone, Debug)]
pub struct ImportedGateway {
    pub port: Option<u16>,
    pub auth: Option<ImportedAuth>,
    /// The TLS section, if present, with its `enabled` flag.
    pub tls: Option<Option<bool>>,
    /// The remote section, if present, with its TLS fingerprint.
    pub remote: Option<Option<String>>,
}

/// The tool's node file: identity and, taking precedence, gateway details.
#[derive(Clone, Debug)]
pub struct ImportedNode {
    pub node_id: Option<String>,
    pub display_name: Option<String>,
    pub host: Option<String>,
    pub port: Option<u16>,
    pub tls: Option<bool>,
}

/// The node file's port, if it gives one.
pub open spec fn node_port(node: Option<ImportedNode>) -> Option<u16> {
    match node {
        Some(n) => n.port,
        None => None,
    }
}

/// The node file's host, if it gives one.
pub open spec fn node_host(node: Option<ImportedNode>) -> Option<String> {
    match node {
        Some(n) => n.host,
        None => None,
    }
}

/// The node file's TLS flag, if it gives one.
pub open spec fn node_tls(node: Option<ImportedNode>) -> Option<bool> {
    match node {
        Some(n) => n.tls,
        None => None,
    }
}

/// The node file's node id, if it gives one.
pub open spec fn node_node_id(node: Option<ImportedNode>) -> Option<String> {
    match node {
        Some(n) => n.node_id,
        None => None,
    }
}

/// The node file's display name, if it gives one.
pub open spec fn node_display_name(node: Option<ImportedNode>) -> Option<String> {
    match node {
        Some(n) => n.display_name,
        None => None,
    }
}

/// Settings taken over from the command-line tool: the defaults, with what
/// its gateway section gives, then what its node file gives on top.
pub fn imported_config(gw: &ImportedGateway, node: &Option<ImportedNode>) -> (r: NodeClientConfig)
    ensures
        r.port == (match node_port(*node) {
            Some(p) => p,
            None => match gw.port {
                Some(p) => p,
                None => DEFAULT_PORT,
            },
        }),
        r.host@ == (match node_host(*node) {
            Some(h) => h@,
            None => DEFAULT_HOST@,
        }),
        r.tls == (match node_tls(*node) {
            Some(t) => t,
            None => match gw.tls {
                Some(t) => t == Some(true),
                None => false,
            },
        }),
        gw.auth is Some ==> r.gateway_token == gw.auth->0.token && r.gateway_password == gw.auth->0.password,
        gw.auth is None ==> r.gateway_token is None && r.gateway_password is None,
        gw.remote is Some ==> r.tls_fingerprint == gw.remote->0,
        gw.remote is None ==> r.tls_fingerprint is None,
        r.node_id == node_node_id(*node),
        r.display_name == node_display_name(*node),
        r.auto_start_node && !r.use_exec_host && r.exec_host_fallback && r.use_bundled_runtime,
        r.install_path is None,
{
    let mut c = NodeClientConfig::default();
    if let Some(p) = gw.port {
        c.port = p;
    }
    match &gw.auth {
        Some(a) => {
            c.gateway_token = crate::text::clone_opt(&a.token);
            c.gateway_password = crate::text::clone_opt(&a.password);
        },
        None => {},
    }
    match &gw.tls {
        Some(t) => {
            c.tls = match t {
                Some(e) => *e,
                None => false,
            };
        },
        None => {},
    }
    match &gw.remote {
        Some(f) => {
            c.tls_fingerprint = crate::text::clone_opt(f);
        },
        None => {},
    }
    match node {
        Some(n) => {
            if n.node_id.is_some() {
                c.node_id = crate::text::clone_opt(&n.node_id);
            }
            if n.display_name.is_some() {
                c.display_name = crate::text::clone_opt(&n.display_name);
            }
            match &n.host {
                Some(h) => {
                    c.host = h.clone();
                },
                None => {},
            }
            if let Some(p) = n.port {
                c.port = p;
            }
            if let Some(t) = n.tls {
                c.tls = t;
            }
        },
        None => {},
    }
    c
}

} // verus!
