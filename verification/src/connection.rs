//! Connection descriptors: the record of ports and keys that a kernel
//! process and its controller both read to establish communication.
//!
//! A descriptor is built once per launch attempt from five allocated ports,
//! a per-session identity and a freshly generated signing key, rendered as
//! JSON with exactly the wire schema's field names, and persisted at a
//! deterministic per-session path through the storage capability.

use vstd::prelude::*;
use vstd::string::StringExecFns;
use crate::storage::{FsEntry, Storage};
use crate::strutil::{chars_to_string, dec_rep, dec_string, string_chars};

verus! {

/// A connection descriptor: transport, bound address, the five channel
/// ports, the signature scheme, the session key, and a display name.
#[derive(Debug)]
pub struct ConnectionInfo {
    pub transport: String,
    pub ip: String,
    pub stdin_port: u16,
    pub control_port: u16,
    pub hb_port: u16,
    pub shell_port: u16,
    pub iopub_port: u16,
    pub signature_scheme: String,
    pub key: String,
    pub kernel_name: String,
}

pub struct ConnectionInfoView {
    pub transport: Seq<char>,
    pub ip: Seq<char>,
    pub stdin_port: u16,
    pub control_port: u16,
    pub hb_port: u16,
    pub shell_port: u16,
    pub iopub_port: u16,
    pub signature_scheme: Seq<char>,
    pub key: Seq<char>,
    pub kernel_name: Seq<char>,
}

impl View for ConnectionInfo {
    type V = ConnectionInfoView;

    open spec fn view(&self) -> ConnectionInfoView {
        ConnectionInfoView {
            transport: self.transport@,
            ip: self.ip@,
            stdin_port: self.stdin_port,
            control_port: self.control_port,
            hb_port: self.hb_port,
            shell_port: self.shell_port,
            iopub_port: self.iopub_port,
            signature_scheme: self.signature_scheme@,
            key: self.key@,
            kernel_name: self.kernel_name@,
        }
    }
}

/// The hexadecimal digit character for a value below sixteen.
pub open spec fn hex_digit(d: nat) -> char {
    if d == 0 {
        '0'
    } else if d == 1 {
        '1'
    } else if d == 2 {
        '2'
    } else if d == 3 {
        '3'
    } else if d == 4 {
        '4'
    } else if d == 5 {
        '5'
    } else if d == 6 {
        '6'
    } else if d == 7 {
        '7'
    } else if d == 8 {
        '8'
    } else if d == 9 {
        '9'
    } else if d == 10 {
        'a'
    } else if d == 11 {
        'b'
    } else if d == 12 {
        'c'
    } else if d == 13 {
        'd'
    } else if d == 14 {
        'e'
    } else {
        'f'
    }
}

/// How one character appears inside a JSON string: quotes and backslashes
/// are escaped, control characters take the universal escape form, and
/// every other character stands for itself.
pub open spec fn escape_char(c: char) -> Seq<char> {
    if c == '"' {
        seq!['\\', '"']
    } else if c == '\\' {
        seq!['\\', '\\']
    } else if (c as u32) < 32 {
        seq!['\\', 'u', '0', '0', hex_digit((c as u32) as nat / 16), hex_digit(
            (c as u32) as nat % 16,
        )]
    } else {
        seq![c]
    }
}

/// The body of a JSON string: each character escaped in order.
pub open spec fn escape(s: Seq<char>) -> Seq<char>
    decreases s.len(),
{
    if s.len() == 0 {
        Seq::empty()
    } else {
        escape_char(s[0]) + escape(s.drop_first())
    }
}

/// A JSON string: the escaped body between double quotes.
pub open spec fn json_string(s: Seq<char>) -> Seq<char> {
    seq!['"'] + escape(s) + seq!['"']
}

/// Escaping distributes over concatenation.
proof fn lemma_escape_concat(a: Seq<char>, b: Seq<char>)
    ensures
        escape(a + b) == escape(a) + escape(b),
    decreases a.len(),
{
    if a.len() == 0 {
        assert(a + b =~= b);
        assert(escape(a) + escape(b) =~= escape(b));
    } else {
        assert((a + b).drop_first() =~= a.drop_first() + b);
        lemma_escape_concat(a.drop_first(), b);
        assert(escape(a + b) =~= escape(a) + escape(b));
    }
}

fn hex_digit_char(d: u32) -> (r: char)
    requires
        d < 16,
    ensures
        r == hex_digit(d as nat),
{
    if d == 0 {
        '0'
    } else if d == 1 {
        '1'
    } else if d == 2 {
        '2'
    } else if d == 3 {
        '3'
    } else if d == 4 {
        '4'
    } else if d == 5 {
        '5'
    } else if d == 6 {
        '6'
    } else if d == 7 {
        '7'
    } else if d == 8 {
        '8'
    } else if d == 9 {
        '9'
    } else if d == 10 {
        'a'
    } else if d == 11 {
        'b'
    } else if d == 12 {
        'c'
    } else if d == 13 {
        'd'
    } else if d == 14 {
        'e'
    } else {
        'f'
    }
}

fn push_escaped(out: &mut Vec<char>, c: char)
    ensures
        final (out)@ == old(out)@ + escape_char(c),
{
    if c == '"' {
        out.push('\\');
        out.push('"');
    } else if c == '\\' {
        out.push('\\');
        out.push('\\');
    } else if (c as u32) < 32 {
        let u = c as u32;
        out.push('\\');
        out.push('u');
        out.push('0');
        out.push('0');
        out.push(hex_digit_char(u / 16));
        out.push(hex_digit_char(u % 16));
    } else {
        out.push(c);
    }
    proof {
        assert(out@ =~= old(out)@ + escape_char(c));
    }
}

/// Appends the JSON string form of `s` to `out`.
fn append_json_string(out: &mut String, s: &String)
    ensures
        final (out)@ == old(out)@ + json_string(s@),
{
    proof {
        reveal_strlit("\"");
    }
    out.append("\"");
    let chars = string_chars(s.as_str());
    let n = chars.len();
    let mut escaped: Vec<char> = Vec::new();
    let mut i: usize = 0;
    proof {
        assert(s@.take(0) =~= Seq::<char>::empty());
    }
    while i < n
        invariant
            n == chars@.len(),
            chars@ == s@,
            i <= n,
            escaped@ == escape(s@.take(i as int)),
        decreases n - i,
    {
        push_escaped(&mut escaped, chars[i]);
        proof {
            let single = seq![s@[i as int]];
            assert(s@.take(i + 1) =~= s@.take(i as int) + single);
            lemma_escape_concat(s@.take(i as int), single);
            assert(single.len() == 1);
            assert(escape(single) == escape_char(single[0]) + escape(single.drop_first()));
            assert(single.drop_first() =~= Seq::<char>::empty());
            assert(escape(single.drop_first()) == Seq::<char>::empty());
            assert(escape(single) =~= escape_char(s@[i as int]));
        }
        i = i + 1;
    }
    proof {
        assert(s@.take(n as int) =~= s@);
    }
    let body = chars_to_string(&escaped);
    out.append(body.as_str());
    out.append("\"");
    proof {
        assert(out@ =~= old(out)@ + json_string(s@));
    }
}

/// The JSON text of a connection descriptor: exactly the wire schema's
/// fields, in order, with string values escaped and ports in decimal.
pub open spec fn connection_json(c: ConnectionInfoView) -> Seq<char> {
    "{\"transport\":"@ + json_string(c.transport) + ",\"ip\":"@ + json_string(c.ip)
        + ",\"stdin_port\":"@ + dec_rep(c.stdin_port as nat) + ",\"control_port\":"@ + dec_rep(
        c.control_port as nat,
    ) + ",\"hb_port\":"@ + dec_rep(c.hb_port as nat) + ",\"shell_port\":"@ + dec_rep(
        c.shell_port as nat,
    ) + ",\"iopub_port\":"@ + dec_rep(c.iopub_port as nat) + ",\"signature_scheme\":"@
        + json_string(c.signature_scheme) + ",\"key\":"@ + json_string(c.key) + ",\"kernel_name\":"@
        + json_string(c.kernel_name) + "}"@
}

impl ConnectionInfo {
    /// Builds a descriptor for a launch attempt: TCP on the loopback
    /// address, the five ports in channel order (stdin, control, heartbeat,
    /// shell, iopub), the HMAC-SHA256 signature scheme, and the given
    /// session key and display name.
    pub fn build(ports: &Vec<u16>, key: String, kernel_name: String) -> (r: ConnectionInfo)
        requires
            ports@.len() == 5,
        ensures
            r@.transport == "tcp"@,
            r@.ip == "127.0.0.1"@,
            r@.signature_scheme == "hmac-sha256"@,
            r@.stdin_port == ports@[0],
            r@.control_port == ports@[1],
            r@.hb_port == ports@[2],
            r@.shell_port == ports@[3],
            r@.iopub_port == ports@[4],
            r@.key == key@,
            r@.kernel_name == kernel_name@,
    {
        ConnectionInfo {
            transport: "tcp".to_owned(),
            ip: "127.0.0.1".to_owned(),
            stdin_port: ports[0],
            control_port: ports[1],
            hb_port: ports[2],
            shell_port: ports[3],
            iopub_port: ports[4],
            signature_scheme: "hmac-sha256".to_owned(),
            key,
            kernel_name,
        }
    }

    /// Renders this descriptor as JSON, exactly as `connection_json` says.
    pub fn to_json(&self) -> (r: String)
        ensures
            r@ == connection_json(self@),
    {
        let mut out = "{\"transport\":".to_owned();
        append_json_string(&mut out, &self.transport);
        out.append(",\"ip\":");
        append_json_string(&mut out, &self.ip);
        out.append(",\"stdin_port\":");
        let p0 = dec_string(self.stdin_port as u64);
        out.append(p0.as_str());
        out.append(",\"control_port\":");
        let p1 = dec_string(self.control_port as u64);
        out.append(p1.as_str());
        out.append(",\"hb_port\":");
        let p2 = dec_string(self.hb_port as u64);
        out.append(p2.as_str());
        out.append(",\"shell_port\":");
        let p3 = dec_string(self.shell_port as u64);
        out.append(p3.as_str());
        out.append(",\"iopub_port\":");
        let p4 = dec_string(self.iopub_port as u64);
        out.append(p4.as_str());
        out.append(",\"signature_scheme\":");
        append_json_string(&mut out, &self.signature_scheme);
        out.append(",\"key\":");
        append_json_string(&mut out, &self.key);
        out.append(",\"kernel_name\":");
        append_json_string(&mut out, &self.kernel_name);
        out.append("}");
        proof {
            assert(out@ =~= connection_json(self@));
        }
        out
    }
}

/// Relies on uuid::Uuid::new_v4 and its hyphenated rendering: a freshly
/// generated random identifier, 36 characters long. Nothing more is
/// promised of its value: keys must not repeat across sessions.
#[verifier::external_body]
pub fn new_session_key() -> (r: String)
    ensures
        r@.len() == 36,
{
    uuid::Uuid::new_v4().to_string()
}

/// The file name of a session's connection descriptor.
pub open spec fn connection_file_name(entity_id: nat) -> Seq<char> {
    "kernel-zed-"@ + dec_rep(entity_id) + ".json"@
}

/// The full path of a session's connection descriptor under a runtime
/// directory: sessions with distinct identities never collide.
pub fn connection_path(runtime_dir: &String, entity_id: u64) -> (r: String)
    ensures
        r@ == runtime_dir@ + "/"@ + connection_file_name(entity_id as nat),
{
    let mut r = runtime_dir.clone();
    r.append("/");
    r.append("kernel-zed-");
    let id = dec_string(entity_id);
    r.append(id.as_str());
    r.append(".json");
    proof {
        assert(r@ =~= runtime_dir@ + "/"@ + connection_file_name(entity_id as nat));
    }
    r
}

/// Law: descriptor paths are deterministic per session identity, and
/// distinct identities never collide under one runtime directory, so
/// concurrent sessions never overwrite one another's descriptor files.
pub proof fn lemma_sessions_never_collide(runtime_dir: Seq<char>, a: nat, b: nat)
    requires
        a != b,
    ensures
        runtime_dir + "/"@ + connection_file_name(a) != runtime_dir + "/"@ + connection_file_name(
            b,
        ),
{
    crate::strutil::lemma_dec_rep_injective(a, b);
    crate::strutil::lemma_append_cancel_left("kernel-zed-"@, dec_rep(a), dec_rep(b));
    crate::strutil::lemma_append_cancel_right(
        "kernel-zed-"@ + dec_rep(a),
        "kernel-zed-"@ + dec_rep(b),
        ".json"@,
    );
    crate::strutil::lemma_append_cancel_left(
        runtime_dir + "/"@,
        connection_file_name(a),
        connection_file_name(b),
    );
}

/// Persists a descriptor's JSON text at `path` in one atomic step.
pub fn write_connection_file<S: Storage>(
    info: &ConnectionInfo,
    path: &String,
    storage: &mut S,
) -> (r: bool)
    ensures
        r ==> final (storage).model() == old(storage).model().insert(
            path@,
            FsEntry::File(connection_json(info@)),
        ),
        !r ==> final (storage).model() == old(storage).model(),
{
    let text = info.to_json();
    storage.atomic_write(path, &text)
}

} // verus!
