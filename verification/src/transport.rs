//! Where client and daemon meet: a socket file on Unix, a named pipe on Windows, both
//! derived from the data root alone, so the two sides agree on it without talking.

use vstd::prelude::*;
use vstd::string::*;
use vstd::utf8::*;

use crate::hex;

verus! {

broadcast use vstd::string::group_string_axioms;

/// The system a process runs on, as far as paths and endpoints differ.
#[derive(Debug, Clone, Copy, PartialEq, Eq, Structural)]
pub enum Platform {
    Unix,
    Windows,
}

/// The separator that Unix knows, and Windows too.
pub const SLASH: u8 = 0x2f;

/// The separator that Windows writes.
pub const BACKSLASH: u8 = 0x5c;

/// What stands behind the letter of a drive.
pub const COLON: u8 = 0x3a;

impl Platform {
    /// The separator that is put between two parts of a path.
    pub open spec fn separator(self) -> u8 {
        match self {
            Platform::Unix => SLASH,
            Platform::Windows => BACKSLASH,
        }
    }

    /// Whether a byte separates two parts of a path.
    pub open spec fn separates(self, b: u8) -> bool {
        b == SLASH || (self == Platform::Windows && b == BACKSLASH)
    }

    /// Where a path has its first separator from a place on, or its length.
    pub open spec fn next_separator(self, path: Seq<u8>, from: int) -> int
        decreases path.len() - from,
    {
        if from >= path.len() || self.separates(path[from]) {
            from
        } else {
            self.next_separator(path, from + 1)
        }
    }

    /// Whether a path begins with a drive.
    pub open spec fn has_drive(self, path: Seq<u8>) -> bool {
        &&& self == Platform::Windows
        &&& path.len() >= 2
        &&& is_letter(path[0])
        &&& path[1] == COLON
    }

    /// Whether a path begins with the name of a share: that of a server and its own, behind
    /// two separators.
    pub open spec fn has_share(self, path: Seq<u8>) -> bool {
        let server = self.next_separator(path, 2);
        &&& self == Platform::Windows
        &&& path.len() >= 2
        &&& self.separates(path[0])
        &&& self.separates(path[1])
        &&& 2 < server < path.len()
        &&& server + 1 < self.next_separator(path, server + 1)
    }

    /// How much of a path says which drive or share it is on. On Unix nothing does.
    pub open spec fn prefix_len(self, path: Seq<u8>) -> int {
        if self.has_drive(path) {
            2
        } else if self.has_share(path) {
            self.next_separator(path, self.next_separator(path, 2) + 1)
        } else {
            0
        }
    }

    /// Whether a path begins at the root.
    pub open spec fn is_rooted(self, path: Seq<u8>) -> bool {
        path.len() > 0 && self.separates(path[0])
    }

    /// Whether another part goes behind a path as it is, with no separator put between.
    pub open spec fn takes_parts(self, path: Seq<u8>) -> bool {
        ||| path.len() == 0
        ||| self.separates(path.last())
        ||| (self.has_drive(path) && path.len() == 2)
    }

    /// A path with another adjoined. One with a drive or a share of its own replaces it,
    /// and one that begins at the root replaces all but its drive or share. A verbatim path
    /// of Windows counts as one on a share.
    pub open spec fn joined(self, base: Seq<u8>, part: Seq<u8>) -> Seq<u8> {
        if self.prefix_len(part) > 0 {
            part
        } else if self.is_rooted(part) {
            base.take(self.prefix_len(base)) + part
        } else if self.takes_parts(base) {
            base + part
        } else {
            base.push(self.separator()) + part
        }
    }

    /// A path with a name adjoined.
    pub open spec fn within(self, base: Seq<u8>, name: Seq<char>) -> Seq<u8> {
        self.joined(base, encode_utf8(name))
    }

    /// Whether a byte separates two parts of a path.
    pub(crate) fn is_separator(self, b: u8) -> (r: bool)
        ensures
            r == self.separates(b),
    {
        b == SLASH || (self == Platform::Windows && b == BACKSLASH)
    }

    fn find_separator(self, path: &[u8], from: usize) -> (r: usize)
        requires
            from <= path@.len(),
        ensures
            r == self.next_separator(path@, from as int),
            from <= r <= path@.len(),
    {
        let mut i: usize = from;
        while i < path.len() && !self.is_separator(path[i])
            invariant
                from <= i <= path@.len(),
                self.next_separator(path@, i as int) == self.next_separator(path@, from as int),
            decreases path@.len() - i,
        {
            i = i + 1;
        }
        i
    }

    fn drive(self, path: &[u8]) -> (r: bool)
        ensures
            r == self.has_drive(path@),
    {
        self == Platform::Windows && path.len() >= 2 && letter(path[0]) && path[1] == COLON
    }

    /// How much of a path says which drive or share it is on.
    pub(crate) fn prefix(self, path: &[u8]) -> (r: usize)
        ensures
            r == self.prefix_len(path@),
            r <= path@.len(),
    {
        if self.drive(path) {
            return 2;
        }
        if self != Platform::Windows || path.len() < 2 || !self.is_separator(path[0])
            || !self.is_separator(path[1]) {
            return 0;
        }
        let server: usize = self.find_separator(path, 2);
        if server == 2 || server == path.len() {
            return 0;
        }
        let share: usize = self.find_separator(path, server + 1);
        if share == server + 1 {
            return 0;
        }
        share
    }

    /// A path with another adjoined.
    pub fn join(self, base: &Vec<u8>, name: &str) -> (r: Vec<u8>)
        ensures
            r@ == self.within(base@, name@),
    {
        let part = name.as_bytes();
        let mut out: Vec<u8> = Vec::new();
        if self.prefix(part) > 0 {
            append_bytes(&mut out, part);
            assert(out@ =~= part@);
            return out;
        }
        append_bytes(&mut out, base.as_slice());
        assert(out@ =~= base@);
        if part.len() > 0 && self.is_separator(part[0]) {
            let kept: usize = self.prefix(base.as_slice());
            out.truncate(kept);
            assert(out@ =~= base@.take(kept as int));
        } else if base.len() > 0 && !self.is_separator(base[base.len() - 1]) && !(base.len() == 2
            && self.drive(base.as_slice())) {
            out.push(self.separator_byte());
        }
        append_bytes(&mut out, part);
        out
    }

    fn separator_byte(self) -> (r: u8)
        ensures
            r == self.separator(),
    {
        match self {
            Platform::Unix => SLASH,
            Platform::Windows => BACKSLASH,
        }
    }
}

/// Whether a byte is a letter of the alphabet, as drives are named by.
pub open spec fn is_letter(b: u8) -> bool {
    0x41 <= b <= 0x5a || 0x61 <= b <= 0x7a
}

fn letter(b: u8) -> (r: bool)
    ensures
        r == is_letter(b),
{
    (0x41 <= b && b <= 0x5a) || (0x61 <= b && b <= 0x7a)
}

/// Put bytes behind others.
pub(crate) fn append_bytes(out: &mut Vec<u8>, bytes: &[u8])
    ensures
        final(out)@ == old(out)@ + bytes@,
{
    let mut i: usize = 0;
    assert(out@ =~= old(out)@ + bytes@.take(0));
    while i < bytes.len()
        invariant
            i <= bytes@.len(),
            out@ == old(out)@ + bytes@.take(i as int),
        decreases bytes@.len() - i,
    {
        out.push(bytes[i]);
        assert(bytes@.take(i + 1) =~= bytes@.take(i as int).push(bytes@[i as int]));
        assert(out@ =~= old(out)@ + bytes@.take(i + 1));
        i = i + 1;
    }
    assert(bytes@.take(bytes@.len() as int) =~= bytes@);
}

/// Two relative names within one path are one name, if the paths are one path.
pub proof fn within_injective(platform: Platform, base: Seq<u8>, a: Seq<char>, b: Seq<char>)
    requires
        platform.within(base, a) == platform.within(base, b),
        !platform.is_rooted(encode_utf8(a)),
        !platform.is_rooted(encode_utf8(b)),
        platform.prefix_len(encode_utf8(a)) == 0,
        platform.prefix_len(encode_utf8(b)) == 0,
    ensures
        a == b,
{
    let (x, y) = (encode_utf8(a), encode_utf8(b));
    let prefix = if platform.takes_parts(base) {
        base
    } else {
        base.push(platform.separator())
    };
    assert((prefix + x).skip(prefix.len() as int) =~= x);
    assert((prefix + y).skip(prefix.len() as int) =~= y);
    encode_utf8_decode_utf8(a);
    encode_utf8_decode_utf8(b);
}

/// `String::from_utf8_lossy` of the standard library, named: the text of a byte string,
/// with what is not UTF-8 replaced.
pub uninterp spec fn lossy_text(bytes: Seq<u8>) -> Seq<char>;

/// `String::from_utf8_lossy`: its result is a function of the bytes alone, and is the
/// decoded text where the bytes are UTF-8.
#[verifier::external_body]
pub(crate) fn to_lossy_text(bytes: &[u8]) -> (r: String)
    ensures
        r@ == lossy_text(bytes@),
        valid_utf8(bytes@) ==> r@ == decode_utf8(bytes@),
{
    String::from_utf8_lossy(bytes).into_owned()
}

/// The text of the socket file on Unix.
pub open spec fn socket_name(root: Seq<u8>) -> Seq<char> {
    lossy_text(Platform::Unix.within(root, "daemon.sock"@))
}

/// Where client and daemon meet: the socket file on Unix, the named pipe on Windows.
pub open spec fn endpoint_of(platform: Platform, root: Seq<u8>) -> Seq<char> {
    match platform {
        Platform::Unix => socket_name(root),
        Platform::Windows => pipe_name(lossy_text(root)),
    }
}

/// The socket file on Unix.
pub fn unix_endpoint(root: &Vec<u8>) -> (r: String)
    ensures
        r@ == socket_name(root@),
        valid_utf8(Platform::Unix.within(root@, "daemon.sock"@)) ==> r@ == decode_utf8(
            Platform::Unix.within(root@, "daemon.sock"@),
        ),
{
    let socket = Platform::Unix.join(root, "daemon.sock");
    to_lossy_text(socket.as_slice())
}

/// Where client and daemon meet: the socket file on Unix, the named pipe on Windows.
pub fn endpoint(platform: Platform, root: &Vec<u8>) -> (r: String)
    ensures
        r@ == endpoint_of(platform, root@),
{
    match platform {
        Platform::Unix => unix_endpoint(root),
        Platform::Windows => windows_endpoint(root),
    }
}

/// One step of FNV-1a: the byte is folded in, then the hash is multiplied by the prime.
pub open spec fn fnv_step(hash: u64, byte: u8) -> u64 {
    (hash ^ byte as u64).wrapping_mul(0x0000_0100_0000_01b3)
}

/// The 64-bit FNV-1a hash of a byte string.
pub open spec fn fnv1a(bytes: Seq<u8>) -> u64
    decreases bytes.len(),
{
    if bytes.len() == 0 {
        0xcbf2_9ce4_8422_2325
    } else {
        fnv_step(fnv1a(bytes.drop_last()), bytes.last())
    }
}

/// The 64-bit FNV-1a hash of a byte string.
pub fn fnv1a_hash(bytes: &[u8]) -> (r: u64)
    ensures
        r == fnv1a(bytes@),
{
    let mut hash: u64 = 0xcbf2_9ce4_8422_2325;
    let mut i: usize = 0;
    assert(bytes@.take(0) =~= seq![]);
    while i < bytes.len()
        invariant
            i <= bytes@.len(),
            hash == fnv1a(bytes@.take(i as int)),
        decreases bytes@.len() - i,
    {
        assert(bytes@.take(i + 1).drop_last() =~= bytes@.take(i as int));
        hash = (hash ^ bytes[i] as u64).wrapping_mul(0x0000_0100_0000_01b3);
        i = i + 1;
    }
    assert(bytes@.take(bytes@.len() as int) =~= bytes@);
    hash
}

/// The last `width` hexadecimal digits of a number, leading zeros included.
pub open spec fn hex_digits(n: nat, width: nat) -> Seq<char>
    decreases width,
{
    if width == 0 {
        seq![]
    } else {
        hex_digits(n / 16, (width - 1) as nat).push(hex::hex_digit(n % 16))
    }
}

/// The last `width` hexadecimal digits of a number, leading zeros included.
pub fn hex_number(n: u64, width: u64) -> (r: String)
    ensures
        r@ == hex_digits(n as nat, width as nat),
    decreases width,
{
    if width == 0 {
        let s = String::new();
        assert(s@ =~= seq![]);
        s
    } else {
        let mut s = hex_number(n / 16, width - 1);
        s.push(hex::hex_char((n % 16) as u8));
        s
    }
}

/// The named pipe of a data root on Windows: its text's FNV-1a hash in a fixed name.
pub open spec fn pipe_name(root_text: Seq<char>) -> Seq<char> {
    r"\\.\pipe\pendrake-"@ + hex_digits(fnv1a(encode_utf8(root_text)) as nat, 16)
}

/// The named pipe of a data root whose text is given.
pub fn pipe_endpoint(root_text: &str) -> (r: String)
    ensures
        r@ == pipe_name(root_text@),
{
    let hash: u64 = fnv1a_hash(root_text.as_bytes());
    let mut s = r"\\.\pipe\pendrake-".to_string();
    let digits = hex_number(hash, 16);
    s.append(digits.as_str());
    s
}

/// The named pipe on Windows.
pub fn windows_endpoint(root: &Vec<u8>) -> (r: String)
    ensures
        r@ == pipe_name(lossy_text(root@)),
{
    let text = to_lossy_text(root.as_slice());
    pipe_endpoint(text.as_str())
}

// ---------------------------------------------------------------------------
// What paths and endpoints come to
// ---------------------------------------------------------------------------

/// On Unix a path that begins at the root replaces the one it is adjoined to, and any other
/// goes behind it, with one slash between unless there is one already or nothing before.
pub proof fn unix_paths_are_joined_by_slashes(base: Seq<u8>, part: Seq<u8>)
    ensures
        part.len() > 0 && part[0] == 0x2f ==> Platform::Unix.joined(base, part) == part,
        (part.len() == 0 || part[0] != 0x2f) && (base.len() == 0 || base.last() == 0x2f)
            ==> Platform::Unix.joined(base, part) == base + part,
        (part.len() == 0 || part[0] != 0x2f) && base.len() > 0 && base.last() != 0x2f
            ==> Platform::Unix.joined(base, part) == base + seq![0x2fu8] + part,
{
    assert(base.take(0) + part =~= part);
    assert(base.push(0x2fu8) + part =~= base + seq![0x2fu8] + part);
}

/// On Windows a path on a drive of its own replaces the one it is adjoined to; one without
/// goes behind it, with one backslash between unless a separator of either kind, a bare
/// drive or nothing stands there; and one that begins at the root keeps only the drive.
pub proof fn windows_paths_are_joined_by_backslashes(base: Seq<u8>, part: Seq<u8>)
    ensures
        part.len() >= 2 && is_letter(part[0]) && part[1] == 0x3a ==> Platform::Windows.joined(
            base,
            part,
        ) == part,
        base.len() >= 2 && is_letter(base[0]) && base[1] == 0x3a && part.len() > 0 && (part[0]
            == 0x2f || part[0] == 0x5c) && (part.len() < 2 || (part[1] != 0x2f && part[1] != 0x5c))
            ==> Platform::Windows.joined(base, part) == base.take(2) + part,
        (part.len() == 0 || (part[0] != 0x2f && part[0] != 0x5c)) && !(part.len() >= 2
            && is_letter(part[0]) && part[1] == 0x3a) ==> {
            &&& base.len() == 0 || base.last() == 0x2f || base.last() == 0x5c || (base.len() == 2
                && is_letter(base[0]) && base[1] == 0x3a) ==> Platform::Windows.joined(base, part)
                == base + part
            &&& !(base.len() == 0 || base.last() == 0x2f || base.last() == 0x5c || (base.len()
                == 2 && is_letter(base[0]) && base[1] == 0x3a)) ==> Platform::Windows.joined(
                base,
                part,
            ) == base + seq![0x5cu8] + part
        },
{
    assert(base.push(0x5cu8) + part =~= base + seq![0x5cu8] + part);
}

proof fn next_separator_found(platform: Platform, path: Seq<u8>, from: int, at: int)
    requires
        0 <= from <= at <= path.len(),
        forall|k: int| from <= k < at ==> !platform.separates(#[trigger] path[k]),
        at == path.len() || platform.separates(path[at]),
    ensures
        platform.next_separator(path, from) == at,
    decreases at - from,
{
    if from < at {
        assert(!platform.separates(path[from]));
        next_separator_found(platform, path, from + 1, at);
    }
}

/// On Windows a path that begins with two separators, a server and a share is on that
/// share: as much of it says so as those take.
pub proof fn a_share_is_told_by_its_server_and_name(
    server: Seq<u8>,
    share: Seq<u8>,
    rest: Seq<u8>,
)
    requires
        server.len() > 0,
        share.len() > 0,
        forall|k: int| 0 <= k < server.len() ==> server[k] != 0x2f && server[k] != 0x5c,
        forall|k: int| 0 <= k < share.len() ==> share[k] != 0x2f && share[k] != 0x5c,
        rest.len() > 0 ==> rest[0] == 0x2f || rest[0] == 0x5c,
    ensures
        ({
            let path = seq![0x5cu8, 0x5cu8] + server + seq![0x5cu8] + share + rest;
            Platform::Windows.prefix_len(path) == 3 + server.len() + share.len()
        }),
{
    let path = seq![0x5cu8, 0x5cu8] + server + seq![0x5cu8] + share + rest;
    let w = Platform::Windows;
    let a = 2 + server.len() as int;
    let b = a + 1 + share.len();
    assert forall|k: int| 2 <= k < a implies !w.separates(#[trigger] path[k]) by {
        assert(path[k] == server[k - 2]);
    }
    assert(path[a] == 0x5c);
    next_separator_found(w, path, 2, a);
    assert forall|k: int| a + 1 <= k < b implies !w.separates(#[trigger] path[k]) by {
        assert(path[k] == share[k - a - 1]);
    }
    if rest.len() > 0 {
        assert(path[b] == rest[0]);
    }
    next_separator_found(w, path, a + 1, b);
    assert(path[0] == 0x5c && path[1] == 0x5c);
}

/// On Unix nothing of a path says which drive or share it is on, and a letter and a colon
/// do on Windows.
pub proof fn drives_are_told_by_a_letter_and_a_colon(path: Seq<u8>)
    ensures
        Platform::Unix.prefix_len(path) == 0,
        path.len() >= 2 && is_letter(path[0]) && path[1] == 0x3a ==> Platform::Windows.prefix_len(
            path,
        ) == 2,
        Platform::Unix.separator() == 0x2f,
        Platform::Windows.separator() == 0x5c,
{
}

/// Client and daemon meet at the file `daemon.sock` in the data root on Unix.
pub proof fn unix_meets_at_the_socket(root: Seq<u8>)
    ensures
        root.len() > 0 && root.last() != 0x2f ==> endpoint_of(Platform::Unix, root) == lossy_text(
            root + seq![0x2fu8] + encode_utf8("daemon.sock"@),
        ),
        root.len() == 0 || root.last() == 0x2f ==> endpoint_of(Platform::Unix, root) == lossy_text(
            root + encode_utf8("daemon.sock"@),
        ),
{
    reveal_strlit("daemon.sock");
    is_ascii_chars_encode_utf8("daemon.sock"@);
    unix_paths_are_joined_by_slashes(root, encode_utf8("daemon.sock"@));
}

/// The number that hexadecimal digits in lower case denote.
pub open spec fn hex_value(s: Seq<char>) -> nat
    decreases s.len(),
{
    if s.len() == 0 {
        0
    } else {
        let c = s.last() as u32;
        16 * hex_value(s.drop_last()) + (if c < 0x3a {
            (c - 0x30) as nat
        } else {
            (c - 0x57) as nat
        })
    }
}

spec fn pow16(n: nat) -> nat
    decreases n,
{
    if n == 0 {
        1
    } else {
        16 * pow16((n - 1) as nat)
    }
}

proof fn hex_digits_denote(n: nat, width: nat)
    requires
        n < pow16(width),
    ensures
        hex_digits(n, width).len() == width,
        hex_value(hex_digits(n, width)) == n,
        forall|i: int|
            0 <= i < width ==> 0x30 <= #[trigger] hex_digits(n, width)[i] as u32 <= 0x39 || 0x61
                <= hex_digits(n, width)[i] as u32 <= 0x66,
    decreases width,
{
    if width > 0 {
        let before = hex_digits(n / 16, (width - 1) as nat);
        hex_digits_denote(n / 16, (width - 1) as nat);
        assert(hex_digits(n, width).drop_last() =~= before);
        assert forall|i: int| 0 <= i < width implies 0x30 <= #[trigger] hex_digits(n, width)[i] as u32
            <= 0x39 || 0x61 <= hex_digits(n, width)[i] as u32 <= 0x66 by {
            if i < width - 1 {
                assert(hex_digits(n, width)[i] == before[i]);
            }
        }
    } else {
        assert(hex_digits(n, width) =~= seq![]);
    }
}

/// On Windows they meet at a pipe whose name ends in the sixteen hexadecimal digits of the
/// root's hash: digits that denote the hash, so that roots with different hashes have
/// different pipes.
pub proof fn windows_meets_at_the_pipe_of_the_hash(a: Seq<u8>, b: Seq<u8>)
    ensures
        ({
            let hash = fnv1a(encode_utf8(lossy_text(a)));
            let name = endpoint_of(Platform::Windows, a);
            let fixed = r"\\.\pipe\pendrake-"@;
            &&& name.len() == fixed.len() + 16
            &&& name.take(fixed.len() as int) == fixed
            &&& hex_value(name.skip(fixed.len() as int)) == hash
        }),
        endpoint_of(Platform::Windows, a) == endpoint_of(Platform::Windows, b) ==> fnv1a(
            encode_utf8(lossy_text(a)),
        ) == fnv1a(encode_utf8(lossy_text(b))),
{
    let fixed = r"\\.\pipe\pendrake-"@;
    let (x, y) = (fnv1a(encode_utf8(lossy_text(a))), fnv1a(encode_utf8(lossy_text(b))));
    reveal_with_fuel(pow16, 17);
    assert(pow16(16) == 0x1_0000_0000_0000_0000);
    hex_digits_denote(x as nat, 16);
    hex_digits_denote(y as nat, 16);
    let (s, t) = (hex_digits(x as nat, 16), hex_digits(y as nat, 16));
    assert((fixed + s).skip(fixed.len() as int) =~= s);
    assert((fixed + t).skip(fixed.len() as int) =~= t);
    assert((fixed + s).take(fixed.len() as int) =~= fixed);
}

/// The hash is the 64-bit FNV-1a: it starts from the offset basis, and each further byte is
/// folded in before the multiplication by the prime.
pub proof fn the_hash_folds_before_it_multiplies(bytes: Seq<u8>, byte: u8)
    ensures
        fnv1a(seq![]) == 0xcbf2_9ce4_8422_2325,
        fnv1a(bytes.push(byte)) == (fnv1a(bytes) ^ byte as u64).wrapping_mul(0x100_0000_01b3),
{
    assert(bytes.push(byte).drop_last() =~= bytes);
}

} // verus!
