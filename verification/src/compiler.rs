//! Finding the resource compiler of the Windows SDK and running it: every
//! decision of the search and of the run, made from what the caller reports
//! of the registry, the file system and the process.

use crate::text::{
    bits, bits_of, chars_of, prefixed_hex, push_char, push_prefixed_hex, push_signed_decimal,
    push_text, right_aligned, same_text, signed_decimal, text_of,
};
use crate::util::{env_error_message, BuildEnv, EnvError, Location, LocationView};
use vstd::prelude::*;
use vstd::std_specs::convert::FromSpecImpl;
use vstd::utf8::encode_utf8;

verus! {

/// Why the resource compiler could not be found or did not do its work.
#[derive(Debug)]
pub enum CompilerError {
    /// An environment variable of the build is not set.
    EnvVarNotFound(EnvError),
    /// The host triple has no hyphen.
    InvalidHost,
    /// The host's architecture is none that the SDK has a compiler for.
    UnsupportedArch,
    /// The registry does not name the SDK's directory; the number is the
    /// system's error code.
    SdkNotFound(i32),
    /// The SDK's `bin` directory could not be listed; the text is the
    /// system's message.
    SdkReadFailed(String),
    /// No version of the SDK holds a compiler for the host's architecture.
    CompilerNotFound,
    /// The compiler could not be started; the text is the system's message.
    CommandFailed(String),
    /// The compiler ran and reported failure with this exit code.
    StatusFailure(i32),
    /// The compiler ended without an exit code.
    Terminated,
}

/// A [`CompilerError`] as sequences of characters.
pub ghost enum CompilerErrorView {
    EnvVarNotFound(Seq<char>),
    InvalidHost,
    UnsupportedArch,
    SdkNotFound(i32),
    SdkReadFailed(Seq<char>),
    CompilerNotFound,
    CommandFailed(Seq<char>),
    StatusFailure(i32),
    Terminated,
}

impl View for CompilerError {
    type V = CompilerErrorView;

    open spec fn view(&self) -> CompilerErrorView {
        match self {
            CompilerError::EnvVarNotFound(e) => CompilerErrorView::EnvVarNotFound(e@),
            CompilerError::InvalidHost => CompilerErrorView::InvalidHost,
            CompilerError::UnsupportedArch => CompilerErrorView::UnsupportedArch,
            CompilerError::SdkNotFound(code) => CompilerErrorView::SdkNotFound(*code),
            CompilerError::SdkReadFailed(m) => CompilerErrorView::SdkReadFailed(m@),
            CompilerError::CompilerNotFound => CompilerErrorView::CompilerNotFound,
            CompilerError::CommandFailed(m) => CompilerErrorView::CommandFailed(m@),
            CompilerError::StatusFailure(code) => CompilerErrorView::StatusFailure(*code),
            CompilerError::Terminated => CompilerErrorView::Terminated,
        }
    }
}

impl CompilerErrorView {
    /// The message that reports the error. A system error code is written in
    /// hexadecimal behind `0x`, right-aligned in ten characters; an exit code
    /// in decimal.
    pub open spec fn message(self) -> Seq<char> {
        match self {
            CompilerErrorView::EnvVarNotFound(var) => env_error_message(var),
            CompilerErrorView::InvalidHost => "HOST env var is not a valid host triple."@,
            CompilerErrorView::UnsupportedArch => "Unsupported host architecture!"@,
            CompilerErrorView::SdkNotFound(code) => "Windows SDK not found! ("@ + right_aligned(
                prefixed_hex(bits_of(code as int)),
                10,
            ) + ")"@,
            CompilerErrorView::SdkReadFailed(m) => "Failed to read Windows SDK's bin directory. "@
                + m,
            CompilerErrorView::CompilerNotFound => "Resource compiler (rc.exe) was not found!"@,
            CompilerErrorView::CommandFailed(m) => "Failed to execute the resource compiler. "@
                + m,
            CompilerErrorView::StatusFailure(code) => "Failed to compile resource! Exit code: "@
                + signed_decimal(code as int),
            CompilerErrorView::Terminated => "The resource compiler ended without an exit code!"@,
        }
    }
}

/// Appends `text` behind the spaces that bring it to `width` characters.
fn push_right_aligned(out: &mut String, text: &str, width: usize)
    ensures
        final(out)@ == old(out)@ + right_aligned(text@, width as nat),
{
    let len = text.unicode_len();
    let mut i: usize = len;
    while i < width
        invariant
            len == text@.len(),
            len <= i <= width || (width < len && i == len),
            out@ == old(out)@ + Seq::new((i - len) as nat, |k: int| ' '),
        decreases width - i,
    {
        push_char(out, ' ');
        i = i + 1;
        proof {
            assert(out@ =~= old(out)@ + Seq::new((i - len) as nat, |k: int| ' '));
        }
    }
    push_text(out, text);
    proof {
        if len >= width {
            assert(final(out)@ =~= old(out)@ + text@);
        } else {
            assert(final(out)@ =~= old(out)@ + (Seq::new((width - len) as nat, |k: int| ' ')
                + text@));
        }
    }
}

impl CompilerError {
    /// The error's message for the user.
    pub fn message(&self) -> (r: String)
        ensures
            r@ == self@.message(),
    {
        let mut out = String::new();
        match self {
            CompilerError::EnvVarNotFound(e) => {
                return e.message();
            },
            CompilerError::InvalidHost => {
                push_text(&mut out, "HOST env var is not a valid host triple.");
            },
            CompilerError::UnsupportedArch => {
                push_text(&mut out, "Unsupported host architecture!");
            },
            CompilerError::SdkNotFound(code) => {
                let mut number = String::new();
                push_prefixed_hex(&mut number, bits(*code));
                push_text(&mut out, "Windows SDK not found! (");
                push_right_aligned(&mut out, number.as_str(), 10);
                push_text(&mut out, ")");
            },
            CompilerError::SdkReadFailed(m) => {
                push_text(&mut out, "Failed to read Windows SDK's bin directory. ");
                push_text(&mut out, m.as_str());
            },
            CompilerError::CompilerNotFound => {
                push_text(&mut out, "Resource compiler (rc.exe) was not found!");
            },
            CompilerError::CommandFailed(m) => {
                push_text(&mut out, "Failed to execute the resource compiler. ");
                push_text(&mut out, m.as_str());
            },
            CompilerError::StatusFailure(code) => {
                push_text(&mut out, "Failed to compile resource! Exit code: ");
                push_signed_decimal(&mut out, *code);
            },
            CompilerError::Terminated => {
                push_text(&mut out, "The resource compiler ended without an exit code!");
            },
        }
        out
    }
}

impl FromSpecImpl<EnvError> for CompilerError {
    open spec fn obeys_from_spec() -> bool {
        true
    }

    open spec fn from_spec(error: EnvError) -> CompilerError {
        CompilerError::EnvVarNotFound(error)
    }
}

impl From<EnvError> for CompilerError {
    fn from(error: EnvError) -> (r: CompilerError) {
        CompilerError::EnvVarNotFound(error)
    }
}


/// The registry key, below `HKEY_LOCAL_MACHINE`, that tells where the
/// Windows SDK is installed.
pub open spec fn sdk_registry_key() -> Seq<char> {
    "SOFTWARE\\Microsoft\\Windows Kits\\Installed Roots"@
}

/// The value of that key which names the SDK's directory.
pub open spec fn sdk_registry_value() -> Seq<char> {
    "KitsRoot10"@
}

/// The part of `host` before its first hyphen, or `None` where it has no
/// hyphen.
pub open spec fn before_hyphen(host: Seq<char>) -> Option<Seq<char>>
    decreases host.len(),
{
    if host.len() == 0 {
        None
    } else if host[0] == '-' {
        Some(Seq::<char>::empty())
    } else {
        match before_hyphen(host.drop_first()) {
            Some(rest) => Some(seq![host[0]] + rest),
            None => None,
        }
    }
}

/// The SDK's name for the architecture that a host triple begins with.
pub open spec fn sdk_arch(prefix: Seq<char>) -> Option<Seq<char>> {
    if prefix == "x86_64"@ {
        Some("x64"@)
    } else if prefix == "i686"@ {
        Some("x86"@)
    } else if prefix == "aarch64"@ {
        Some("arm64"@)
    } else {
        None
    }
}

/// The SDK's name for the host's architecture: `HOST` must be set, must
/// have a hyphen, and what stands before its first hyphen must be an
/// architecture that the SDK has a compiler for.
pub open spec fn arch_of(host: Option<Seq<char>>) -> Result<Seq<char>, CompilerErrorView> {
    match host {
        None => Err(CompilerErrorView::EnvVarNotFound("HOST"@)),
        Some(triple) => match before_hyphen(triple) {
            None => Err(CompilerErrorView::InvalidHost),
            Some(prefix) => match sdk_arch(prefix) {
                Some(arch) => Ok(arch),
                None => Err(CompilerErrorView::UnsupportedArch),
            },
        },
    }
}

/// What stands before the first hyphen has no hyphen, and the host is that
/// part, a hyphen, and the rest; a host without a hyphen has no such part.
pub proof fn lemma_before_hyphen(host: Seq<char>)
    ensures
        match before_hyphen(host) {
            Some(prefix) => prefix.len() < host.len() && host.take(prefix.len() as int) == prefix
                && host[prefix.len() as int] == '-' && forall|i: int|
                0 <= i < prefix.len() ==> prefix[i] != '-',
            None => forall|i: int| 0 <= i < host.len() ==> host[i] != '-',
        },
    decreases host.len(),
{
    if host.len() == 0 {
    } else if host[0] == '-' {
        assert(host.take(0) =~= Seq::<char>::empty());
    } else {
        let tail = host.drop_first();
        lemma_before_hyphen(tail);
        match before_hyphen(tail) {
            Some(rest) => {
                let prefix = seq![host[0]] + rest;
                assert(host.take(prefix.len() as int) =~= prefix) by {
                    assert forall|i: int| 0 <= i < prefix.len() implies host.take(
                        prefix.len() as int,
                    )[i] == prefix[i] by {
                        if i > 0 {
                            assert(tail.take(rest.len() as int)[i - 1] == rest[i - 1]);
                        }
                    }
                }
                assert(host[prefix.len() as int] == tail[rest.len() as int]);
            },
            None => {
                assert forall|i: int| 0 <= i < host.len() implies host[i] != '-' by {
                    if i > 0 {
                        assert(tail[i - 1] == host[i]);
                    }
                }
            },
        }
    }
}

/// A host triple that begins with a hyphen-free part `prefix`, followed by
/// a hyphen, has that part before its first hyphen.
pub proof fn lemma_prefix_of_triple(prefix: Seq<char>, rest: Seq<char>)
    requires
        forall|i: int| 0 <= i < prefix.len() ==> prefix[i] != '-',
    ensures
        before_hyphen(prefix + seq!['-'] + rest) == Some(prefix),
    decreases prefix.len(),
{
    let host = prefix + seq!['-'] + rest;
    if prefix.len() == 0 {
        assert(host[0] == '-');
        assert(prefix =~= Seq::<char>::empty());
    } else {
        assert(host[0] == prefix[0]);
        assert(host.drop_first() =~= prefix.drop_first() + seq!['-'] + rest);
        lemma_prefix_of_triple(prefix.drop_first(), rest);
        assert(seq![host[0]] + prefix.drop_first() =~= prefix);
    }
}

/// The architectures: a triple that begins with `x86_64-` is served by the
/// SDK's `x64`, one with `i686-` by `x86`, one with `aarch64-` by `arm64`.
/// A triple with another first part has no compiler, and one without a
/// hyphen is no triple.
pub proof fn lemma_arch_of_host(host: Seq<char>, rest: Seq<char>)
    ensures
        host == "x86_64-"@ + rest ==> arch_of(Some(host)) == Ok::<Seq<char>, CompilerErrorView>(
            "x64"@,
        ),
        host == "i686-"@ + rest ==> arch_of(Some(host)) == Ok::<Seq<char>, CompilerErrorView>(
            "x86"@,
        ),
        host == "aarch64-"@ + rest ==> arch_of(Some(host)) == Ok::<Seq<char>, CompilerErrorView>(
            "arm64"@,
        ),
        (forall|i: int| 0 <= i < host.len() ==> host[i] != '-') ==> arch_of(Some(host)) == Err::<
            Seq<char>,
            CompilerErrorView,
        >(CompilerErrorView::InvalidHost),
        before_hyphen(host) is Some && sdk_arch(before_hyphen(host)->0) is None ==> arch_of(
            Some(host),
        ) == Err::<Seq<char>, CompilerErrorView>(CompilerErrorView::UnsupportedArch),
{
    reveal_strlit("x86_64-");
    reveal_strlit("x86_64");
    reveal_strlit("i686-");
    reveal_strlit("i686");
    reveal_strlit("aarch64-");
    reveal_strlit("aarch64");
    lemma_before_hyphen(host);
    if host == "x86_64-"@ + rest {
        assert(host =~= "x86_64"@ + seq!['-'] + rest);
        lemma_prefix_of_triple("x86_64"@, rest);
    }
    if host == "i686-"@ + rest {
        assert(host =~= "i686"@ + seq!['-'] + rest);
        lemma_prefix_of_triple("i686"@, rest);
        assert("i686"@ != "x86_64"@);
    }
    if host == "aarch64-"@ + rest {
        assert(host =~= "aarch64"@ + seq!['-'] + rest);
        lemma_prefix_of_triple("aarch64"@, rest);
        assert("aarch64"@ != "x86_64"@);
        assert("aarch64"@ != "i686"@);
    }
}

/// The SDK's name for the architecture of the host that the build runs on,
/// from the variable `HOST`.
pub fn get_arch(env: &BuildEnv) -> (r: Result<&'static str, CompilerError>)
    ensures
        match r {
            Ok(arch) => arch_of(env@.host) == Ok::<Seq<char>, CompilerErrorView>(arch@),
            Err(e) => arch_of(env@.host) == Err::<Seq<char>, CompilerErrorView>(e@),
        },
{
    let host = match &env.host {
        Some(host) => host,
        None => {
            return Err(CompilerError::EnvVarNotFound(EnvError("HOST")));
        },
    };
    let chars = chars_of(host.as_str());
    let mut i: usize = 0;
    while i < chars.len() && chars[i] != '-'
        invariant
            i <= chars.len(),
            forall|j: int| 0 <= j < i ==> chars@[j] != '-',
        decreases chars.len() - i,
    {
        i = i + 1;
    }
    proof {
        lemma_before_hyphen(chars@);
        if i < chars.len() {
            let prefix = before_hyphen(chars@)->0;
            assert(before_hyphen(chars@) is Some);
            if prefix.len() < i {
                assert(chars@[prefix.len() as int] == '-');
            }
            if prefix.len() > i {
                assert(prefix[i as int] == chars@.take(prefix.len() as int)[i as int]);
            }
            assert(prefix == chars@.subrange(0, i as int));
        }
    }
    if i == chars.len() {
        return Err(CompilerError::InvalidHost);
    }
    let prefix = text_of(&chars, 0, i);
    if same_text(prefix.as_str(), "x86_64") {
        Ok("x64")
    } else if same_text(prefix.as_str(), "i686") {
        Ok("x86")
    } else if same_text(prefix.as_str(), "aarch64") {
        Ok("arm64")
    } else {
        Err(CompilerError::UnsupportedArch)
    }
}

/// The directory of the Windows SDK, from what the registry gave for it.
pub open spec fn sdk_root(lookup: Result<Seq<char>, i32>) -> Result<Seq<char>, CompilerErrorView> {
    match lookup {
        Ok(root) => Ok(root),
        Err(code) => Err(CompilerErrorView::SdkNotFound(code)),
    }
}

/// The directory `bin` of the SDK.
pub open spec fn sdk_bin(root: Seq<char>) -> LocationView {
    LocationView { base: root, names: seq!["bin"@] }
}

/// The file in which a version of the SDK keeps the compiler for an
/// architecture: `rc.exe`, in the directory of the architecture, in the
/// directory of the version, in `bin`.
pub open spec fn candidate(root: Seq<char>, version: Seq<char>, arch: Seq<char>) -> LocationView {
    LocationView { base: root, names: seq!["bin"@, version, arch, "rc.exe"@] }
}

/// What the registry gave for the SDK's directory, as sequences of
/// characters.
pub open spec fn lookup_view(lookup: Result<String, i32>) -> Result<Seq<char>, i32> {
    match lookup {
        Ok(root) => Ok(root@),
        Err(code) => Err(code),
    }
}

/// The directory of the Windows SDK, from what the registry gave for it:
/// the value that was read, or the system's error code.
pub fn sdk_path(lookup: &Result<String, i32>) -> (r: Result<String, CompilerError>)
    ensures
        match r {
            Ok(root) => sdk_root(lookup_view(*lookup)) == Ok::<Seq<char>, CompilerErrorView>(
                root@,
            ),
            Err(e) => sdk_root(lookup_view(*lookup)) == Err::<Seq<char>, CompilerErrorView>(e@),
        },
{
    match lookup {
        Ok(root) => Ok(root.clone()),
        Err(code) => Err(CompilerError::SdkNotFound(*code)),
    }
}

/// The SDK's directory of tools, one directory for each version.
pub fn sdk_bin_path(lookup: &Result<String, i32>) -> (r: Result<Location, CompilerError>)
    ensures
        match r {
            Ok(bin) => sdk_root(lookup_view(*lookup)) is Ok && bin@ == sdk_bin(
                sdk_root(lookup_view(*lookup))->Ok_0,
            ),
            Err(e) => sdk_root(lookup_view(*lookup)) == Err::<Seq<char>, CompilerErrorView>(e@),
        },
{
    match sdk_path(lookup) {
        Ok(base) => {
            let mut names: Vec<String> = Vec::new();
            names.push(owned("bin"));
            let bin = Location { base, names };
            proof {
                assert(bin.names.deep_view() =~= seq!["bin"@]);
            }
            Ok(bin)
        },
        Err(e) => Err(e),
    }
}

fn owned(text: &str) -> (r: String)
    ensures
        r@ == text@,
{
    let mut out = String::new();
    push_text(&mut out, text);
    out
}

/// Whether `a` comes before `b` when byte strings are ordered by their
/// first difference, a proper prefix coming before what it is a prefix of.
pub open spec fn lex_less(a: Seq<u8>, b: Seq<u8>) -> bool
    decreases a.len(),
{
    if b.len() == 0 {
        false
    } else if a.len() == 0 {
        true
    } else if a[0] != b[0] {
        a[0] < b[0]
    } else {
        lex_less(a.drop_first(), b.drop_first())
    }
}

/// Whether the text `a` comes before the text `b` in the order of their
/// UTF-8 bytes, which is the order of strings.
pub open spec fn text_less(a: Seq<char>, b: Seq<char>) -> bool {
    lex_less(encode_utf8(a), encode_utf8(b))
}

/// Nothing comes before itself.
pub proof fn lemma_lex_irreflexive(a: Seq<u8>)
    ensures
        !lex_less(a, a),
    decreases a.len(),
{
    if a.len() > 0 {
        lemma_lex_irreflexive(a.drop_first());
    }
}

/// What comes before something that comes before a third comes before the
/// third.
pub proof fn lemma_lex_transitive(a: Seq<u8>, b: Seq<u8>, c: Seq<u8>)
    requires
        lex_less(a, b),
        lex_less(b, c),
    ensures
        lex_less(a, c),
    decreases a.len(),
{
    if a.len() > 0 && b.len() > 0 && c.len() > 0 {
        if a[0] == b[0] && b[0] == c[0] {
            lemma_lex_transitive(a.drop_first(), b.drop_first(), c.drop_first());
        }
    }
}

/// Of two different byte strings one comes before the other.
pub proof fn lemma_lex_total(a: Seq<u8>, b: Seq<u8>)
    ensures
        lex_less(a, b) || lex_less(b, a) || a == b,
    decreases a.len(),
{
    if a.len() == 0 || b.len() == 0 {
        if a.len() == 0 && b.len() == 0 {
            assert(a =~= b);
        }
    } else if a[0] == b[0] {
        lemma_lex_total(a.drop_first(), b.drop_first());
        if a.drop_first() == b.drop_first() {
            assert(a =~= seq![a[0]] + a.drop_first());
            assert(b =~= seq![b[0]] + b.drop_first());
        }
    }
}

/// Whether the string `a` comes before the string `b` in the order of
/// their bytes.
pub fn precedes(a: &str, b: &str) -> (r: bool)
    ensures
        r == text_less(a@, b@),
{
    let x = a.as_bytes();
    let y = b.as_bytes();
    let mut i: usize = 0;
    proof {
        assert(x@.skip(0) == x@);
        assert(y@.skip(0) == y@);
    }
    while i < x.len() && i < y.len()
        invariant
            i <= x.len(),
            i <= y.len(),
            x@ == encode_utf8(a@),
            y@ == encode_utf8(b@),
            lex_less(x@, y@) == lex_less(x@.skip(i as int), y@.skip(i as int)),
        decreases x.len() - i,
    {
        proof {
            assert(x@.skip(i as int)[0] == x@[i as int]);
            assert(y@.skip(i as int)[0] == y@[i as int]);
            assert(x@.skip(i as int).drop_first() == x@.skip(i + 1));
            assert(y@.skip(i as int).drop_first() == y@.skip(i + 1));
        }
        if x[i] != y[i] {
            return x[i] < y[i];
        }
        i = i + 1;
    }
    i < y.len()
}

/// `sorted` with `name` put in before the first entry that comes before
/// `name`, or at the end where there is none.
pub open spec fn inserted(sorted: Seq<Seq<char>>, name: Seq<char>) -> Seq<Seq<char>>
    decreases sorted.len(),
{
    if sorted.len() == 0 {
        seq![name]
    } else if text_less(sorted[0], name) {
        seq![name] + sorted
    } else {
        seq![sorted[0]] + inserted(sorted.drop_first(), name)
    }
}

/// The names in descending order: each is put into the order of those
/// before it.
pub open spec fn ranked(names: Seq<Seq<char>>) -> Seq<Seq<char>>
    decreases names.len(),
{
    if names.len() == 0 {
        Seq::<Seq<char>>::empty()
    } else {
        inserted(ranked(names.drop_last()), names.last())
    }
}

/// Whether no entry comes before a later one.
pub open spec fn descending(names: Seq<Seq<char>>) -> bool {
    forall|i: int, j: int| 0 <= i < j < names.len() ==> !text_less(names[i], names[j])
}

/// Putting a name in at position `at` is what [`inserted`] does, where no
/// entry before `at` comes before the name and the entry at `at`, if there
/// is one, does.
proof fn lemma_inserted_at(sorted: Seq<Seq<char>>, name: Seq<char>, at: int)
    requires
        0 <= at <= sorted.len(),
        forall|k: int| 0 <= k < at ==> !text_less(sorted[k], name),
        at < sorted.len() ==> text_less(sorted[at], name),
    ensures
        inserted(sorted, name) == sorted.insert(at, name),
    decreases sorted.len(),
{
    if sorted.len() == 0 {
        assert(sorted.insert(at, name) =~= seq![name]);
    } else if at == 0 {
        assert(sorted.insert(0, name) =~= seq![name] + sorted);
    } else {
        let tail = sorted.drop_first();
        assert forall|k: int| 0 <= k < at - 1 implies !text_less(tail[k], name) by {
            assert(tail[k] == sorted[k + 1]);
        }
        lemma_inserted_at(tail, name, at - 1);
        assert(sorted.insert(at, name) =~= seq![sorted[0]] + tail.insert(at - 1, name));
    }
}

/// The position at which [`inserted`] puts a name.
proof fn lemma_insert_position(sorted: Seq<Seq<char>>, name: Seq<char>) -> (at: int)
    ensures
        0 <= at <= sorted.len(),
        forall|k: int| 0 <= k < at ==> !text_less(sorted[k], name),
        at < sorted.len() ==> text_less(sorted[at], name),
        inserted(sorted, name) == sorted.insert(at, name),
    decreases sorted.len(),
{
    if sorted.len() == 0 || text_less(sorted[0], name) {
        lemma_inserted_at(sorted, name, 0);
        0
    } else {
        let tail = sorted.drop_first();
        let at = lemma_insert_position(tail, name);
        assert forall|k: int| 0 <= k < at + 1 implies !text_less(sorted[k], name) by {
            if k > 0 {
                assert(tail[k - 1] == sorted[k]);
            }
        }
        assert(at + 1 < sorted.len() ==> sorted[at + 1] == tail[at]);
        lemma_inserted_at(sorted, name, at + 1);
        at + 1
    }
}

/// Putting a name into a descending sequence leaves it descending and adds
/// the name to what it holds.
proof fn lemma_inserted(sorted: Seq<Seq<char>>, name: Seq<char>)
    requires
        descending(sorted),
    ensures
        descending(inserted(sorted, name)),
        inserted(sorted, name).to_multiset() == sorted.to_multiset().insert(name),
        inserted(sorted, name).len() == sorted.len() + 1,
{
    let at = lemma_insert_position(sorted, name);
    let out = sorted.insert(at, name);
    assert forall|i: int, j: int| 0 <= i < j < out.len() implies !text_less(out[i], out[j]) by {
        if j == at {
            assert(out[i] == sorted[i]);
            assert(out[j] == name);
            assert(!text_less(sorted[i], name));
        } else if i == at {
            assert(out[i] == name);
            let later = sorted[j - 1];
            assert(out[j] == later);
            if text_less(name, later) {
                lemma_lex_transitive(encode_utf8(sorted[at]), encode_utf8(name), encode_utf8(later));
                if j - 1 == at {
                    lemma_lex_irreflexive(encode_utf8(later));
                } else {
                    assert(!text_less(sorted[at], sorted[j - 1]));
                }
            }
        } else {
            let x = if i < at {
                i
            } else {
                i - 1
            };
            let y = if j < at {
                j
            } else {
                j - 1
            };
            assert(out[i] == sorted[x] && out[j] == sorted[y]);
            assert(!text_less(sorted[x], sorted[y]));
        }
    }
    vstd::seq_lib::to_multiset_remove(out, at);
    assert(out.remove(at) =~= sorted);
    out.to_multiset_ensures();
    assert(out.contains(name)) by {
        assert(out[at] == name);
    }
    assert(out.to_multiset() =~= sorted.to_multiset().insert(name));
}

/// The ranking is in descending order and holds the names that were given,
/// each as often as it was given.
pub proof fn lemma_ranked(names: Seq<Seq<char>>)
    ensures
        descending(ranked(names)),
        ranked(names).to_multiset() == names.to_multiset(),
        ranked(names).len() == names.len(),
    decreases names.len(),
{
    broadcast use vstd::seq_lib::group_to_multiset_ensures;

    if names.len() == 0 {
        assert(names =~= Seq::<Seq<char>>::empty());
    } else {
        lemma_ranked(names.drop_last());
        lemma_inserted(ranked(names.drop_last()), names.last());
        assert(names =~= names.drop_last().push(names.last()));
    }
}

/// The names of the SDK's versions, the one that comes last in the order of
/// strings first. The order is that of the text, not of the numbers in it.
pub fn rank(names: &Vec<String>) -> (r: Vec<String>)
    ensures
        r.deep_view() == ranked(names.deep_view()),
{
    let mut out: Vec<String> = Vec::new();
    let mut i: usize = 0;
    proof {
        assert(names.deep_view().take(0) =~= Seq::<Seq<char>>::empty());
        assert(out.deep_view() =~= Seq::<Seq<char>>::empty());
    }
    while i < names.len()
        invariant
            i <= names.len(),
            out.deep_view() == ranked(names.deep_view().take(i as int)),
        decreases names.len() - i,
    {
        let name = names[i].clone();
        let ghost sorted = out.deep_view();
        let mut at: usize = 0;
        while at < out.len() && !precedes(out[at].as_str(), name.as_str())
            invariant
                at <= out.len(),
                out.deep_view() == sorted,
                forall|k: int| 0 <= k < at ==> !text_less(sorted[k], name@),
            decreases out.len() - at,
        {
            at = at + 1;
        }
        proof {
            lemma_inserted_at(sorted, name@, at as int);
            let all = names.deep_view();
            assert(all.take(i + 1).drop_last() == all.take(i as int));
            assert(all.take(i + 1).last() == name@);
        }
        out.insert(at, name);
        proof {
            assert(out.deep_view() =~= sorted.insert(at as int, name@));
        }
        i = i + 1;
    }
    proof {
        assert(names.deep_view().take(names.len() as int) == names.deep_view());
    }
    out
}


/// What the caller has learnt so far while it looks for the compiler.
#[derive(Debug)]
pub struct Findings {
    /// What the registry gave for the SDK's directory: the value, or the
    /// system's error code. `None` while the registry was not read.
    pub root: Option<Result<String, i32>>,
    /// The names of the directories in the SDK's `bin`, or the system's
    /// message where it could not be listed. `None` while it was not listed.
    pub versions: Option<Result<Vec<String>, String>>,
    /// For each file that the caller was asked about, in the order of the
    /// asking, whether it is a regular file.
    pub probes: Vec<bool>,
}

/// [`Findings`] as sequences.
pub ghost struct FindingsView {
    pub root: Option<Result<Seq<char>, i32>>,
    pub versions: Option<Result<Seq<Seq<char>>, Seq<char>>>,
    pub probes: Seq<bool>,
}

impl View for Findings {
    type V = FindingsView;

    open spec fn view(&self) -> FindingsView {
        FindingsView {
            root: match self.root {
                None => None,
                Some(lookup) => Some(lookup_view(lookup)),
            },
            versions: match self.versions {
                None => None,
                Some(Ok(names)) => Some(Ok(names.deep_view())),
                Some(Err(message)) => Some(Err(message@)),
            },
            probes: self.probes@,
        }
    }
}

impl Findings {
    /// Nothing is known yet.
    pub fn new() -> (r: Findings)
        ensures
            r@ == (FindingsView { root: None, versions: None, probes: Seq::<bool>::empty() }),
    {
        Findings { root: None, versions: None, probes: Vec::new() }
    }
}

/// What the caller is to find out next while it looks for the compiler.
#[derive(Debug)]
pub enum Step {
    /// Read, from this key below `HKEY_LOCAL_MACHINE` of the registry, the
    /// string under this name.
    ReadRegistry(&'static str, &'static str),
    /// List the directories in this directory.
    ListDirs(Location),
    /// Tell whether this is a regular file.
    Probe(Location),
}

/// A [`Step`] as sequences of characters.
pub ghost enum StepView {
    ReadRegistry(Seq<char>, Seq<char>),
    ListDirs(LocationView),
    Probe(LocationView),
}

impl View for Step {
    type V = StepView;

    open spec fn view(&self) -> StepView {
        match self {
            Step::ReadRegistry(key, value) => StepView::ReadRegistry(key@, value@),
            Step::ListDirs(place) => StepView::ListDirs(place@),
            Step::Probe(place) => StepView::Probe(place@),
        }
    }
}

/// How far the search for the compiler has come.
#[derive(Debug)]
pub enum Search {
    /// The caller is to find this out and to ask again.
    Ask(Step),
    /// The search is over: this is the compiler.
    Found(Location),
}

/// A [`Search`] as sequences of characters.
pub ghost enum SearchView {
    Ask(StepView),
    Found(LocationView),
}

impl View for Search {
    type V = SearchView;

    open spec fn view(&self) -> SearchView {
        match self {
            Search::Ask(step) => SearchView::Ask(step@),
            Search::Found(place) => SearchView::Found(place@),
        }
    }
}

/// The search through the versions from `next` on: the first version whose
/// candidate is a regular file has the compiler; a version that was not
/// asked about yet is asked about; where every candidate was asked about and
/// none is a file, there is no compiler. `probes` answers for the versions
/// in their order.
pub open spec fn probed(
    root: Seq<char>,
    versions: Seq<Seq<char>>,
    arch: Seq<char>,
    probes: Seq<bool>,
    next: int,
) -> Result<SearchView, CompilerErrorView>
    decreases versions.len() - next,
{
    if next < 0 || next >= versions.len() {
        Err(CompilerErrorView::CompilerNotFound)
    } else if next >= probes.len() {
        Ok(SearchView::Ask(StepView::Probe(candidate(root, versions[next], arch))))
    } else if probes[next] {
        Ok(SearchView::Found(candidate(root, versions[next], arch)))
    } else {
        probed(root, versions, arch, probes, next + 1)
    }
}

/// How the search for the compiler goes on from what is known: the
/// registry names the SDK's directory; the directories in its `bin` are the
/// versions; the host's architecture is told from `HOST`; and the versions
/// are tried from the last in the order of strings to the first.
pub open spec fn located(host: Option<Seq<char>>, known: FindingsView) -> Result<
    SearchView,
    CompilerErrorView,
> {
    match known.root {
        None => Ok(SearchView::Ask(StepView::ReadRegistry(sdk_registry_key(), sdk_registry_value()))),
        Some(lookup) => match sdk_root(lookup) {
            Err(e) => Err(e),
            Ok(root) => match known.versions {
                None => Ok(SearchView::Ask(StepView::ListDirs(sdk_bin(root)))),
                Some(Err(message)) => Err(CompilerErrorView::SdkReadFailed(message)),
                Some(Ok(names)) => match arch_of(host) {
                    Err(e) => Err(e),
                    Ok(arch) => probed(root, ranked(names), arch, known.probes, 0),
                },
            },
        },
    }
}

/// The search finds the compiler of the version at `at` exactly where that
/// candidate is the first that is a regular file.
pub proof fn lemma_probed_first_file(
    root: Seq<char>,
    versions: Seq<Seq<char>>,
    arch: Seq<char>,
    probes: Seq<bool>,
    at: int,
)
    requires
        0 <= at < versions.len(),
        at < probes.len(),
        probes[at],
        forall|k: int| 0 <= k < at ==> !probes[k],
    ensures
        probed(root, versions, arch, probes, 0) == Ok::<SearchView, CompilerErrorView>(
            SearchView::Found(candidate(root, versions[at], arch)),
        ),
{
    lemma_probed_from(root, versions, arch, probes, at, 0);
}

proof fn lemma_probed_from(
    root: Seq<char>,
    versions: Seq<Seq<char>>,
    arch: Seq<char>,
    probes: Seq<bool>,
    at: int,
    next: int,
)
    requires
        0 <= next <= at < versions.len(),
        at < probes.len(),
        probes[at],
        forall|k: int| 0 <= k < at ==> !probes[k],
    ensures
        probed(root, versions, arch, probes, next) == Ok::<SearchView, CompilerErrorView>(
            SearchView::Found(candidate(root, versions[at], arch)),
        ),
    decreases at - next,
{
    if next < at {
        lemma_probed_from(root, versions, arch, probes, at, next + 1);
    }
}

/// Where every version was asked about and none has the compiler, the
/// search fails.
pub proof fn lemma_probed_none(
    root: Seq<char>,
    versions: Seq<Seq<char>>,
    arch: Seq<char>,
    probes: Seq<bool>,
    next: int,
)
    requires
        0 <= next,
        probes.len() >= versions.len(),
        forall|k: int| 0 <= k < versions.len() ==> !probes[k],
    ensures
        probed(root, versions, arch, probes, next) == Err::<SearchView, CompilerErrorView>(
            CompilerErrorView::CompilerNotFound,
        ),
    decreases versions.len() - next,
{
    if next < versions.len() {
        lemma_probed_none(root, versions, arch, probes, next + 1);
    }
}

fn make_candidate(root: &str, version: &str, arch: &str) -> (r: Location)
    ensures
        r@ == candidate(root@, version@, arch@),
{
    let mut names: Vec<String> = Vec::new();
    names.push(owned("bin"));
    names.push(owned(version));
    names.push(owned(arch));
    names.push(owned("rc.exe"));
    let place = Location { base: owned(root), names };
    proof {
        assert(place.names.deep_view() =~= seq!["bin"@, version@, arch@, "rc.exe"@]);
    }
    place
}

/// Looks for the resource compiler, as far as what is known allows: the
/// result is the compiler, or what the caller is to find out next, or the
/// reason why there is no compiler to be had.
pub fn compiler(env: &BuildEnv, known: &Findings) -> (r: Result<Search, CompilerError>)
    ensures
        match r {
            Ok(step) => located(env@.host, known@) == Ok::<SearchView, CompilerErrorView>(step@),
            Err(e) => located(env@.host, known@) == Err::<SearchView, CompilerErrorView>(e@),
        },
{
    let lookup = match &known.root {
        None => {
            return Ok(
                Search::Ask(
                    Step::ReadRegistry(
                        "SOFTWARE\\Microsoft\\Windows Kits\\Installed Roots",
                        "KitsRoot10",
                    ),
                ),
            );
        },
        Some(lookup) => lookup,
    };
    let root = match sdk_path(lookup) {
        Ok(root) => root,
        Err(e) => {
            return Err(e);
        },
    };
    let names = match &known.versions {
        None => {
            return match sdk_bin_path(lookup) {
                Ok(bin) => Ok(Search::Ask(Step::ListDirs(bin))),
                Err(e) => Err(e),
            };
        },
        Some(Err(message)) => {
            return Err(CompilerError::SdkReadFailed(message.clone()));
        },
        Some(Ok(names)) => names,
    };
    // Sort so the latest version is first in the list
    let versions = rank(names);
    let arch = match get_arch(env) {
        Ok(arch) => arch,
        Err(e) => {
            return Err(e);
        },
    };
    let mut i: usize = 0;
    while i < versions.len()
        invariant
            i <= versions.len(),
            located(env@.host, known@) == probed(
                root@,
                versions.deep_view(),
                arch@,
                known.probes@,
                0,
            ),
            probed(root@, versions.deep_view(), arch@, known.probes@, 0) == probed(
                root@,
                versions.deep_view(),
                arch@,
                known.probes@,
                i as int,
            ),
        decreases versions.len() - i,
    {
        proof {
            assert(versions.deep_view()[i as int] == versions[i as int]@);
        }
        if i >= known.probes.len() {
            return Ok(
                Search::Ask(
                    Step::Probe(make_candidate(root.as_str(), versions[i].as_str(), arch)),
                ),
            );
        }
        if known.probes[i] {
            return Ok(Search::Found(make_candidate(root.as_str(), versions[i].as_str(), arch)));
        }
        i = i + 1;
    }
    Err(CompilerError::CompilerNotFound)
}

/// How a run of the compiler ended.
#[derive(Debug)]
pub enum Exit {
    /// The compiler could not be started; the text is the system's message.
    NotStarted(String),
    /// The compiler ran to its end: whether it reported success, and its
    /// exit code if it has one.
    Ended(bool, Option<i32>),
}

/// An [`Exit`] as sequences of characters.
pub ghost enum ExitView {
    NotStarted(Seq<char>),
    Ended(bool, Option<i32>),
}

impl View for Exit {
    type V = ExitView;

    open spec fn view(&self) -> ExitView {
        match self {
            Exit::NotStarted(message) => ExitView::NotStarted(message@),
            Exit::Ended(success, code) => ExitView::Ended(*success, *code),
        }
    }
}

impl DeepView for Exit {
    type V = ExitView;

    open spec fn deep_view(&self) -> ExitView {
        self@
    }
}

/// One argument of the compiler's command line.
#[derive(Debug)]
pub enum Arg {
    /// A word as it stands.
    Text(String),
    /// The path of a file.
    Path(Location),
}

/// An [`Arg`] as sequences of characters.
pub ghost enum ArgView {
    Text(Seq<char>),
    Path(LocationView),
}

impl View for Arg {
    type V = ArgView;

    open spec fn view(&self) -> ArgView {
        match self {
            Arg::Text(word) => ArgView::Text(word@),
            Arg::Path(place) => ArgView::Path(place@),
        }
    }
}

impl DeepView for Arg {
    type V = ArgView;

    open spec fn deep_view(&self) -> ArgView {
        self@
    }
}

/// What the caller is to do next to have a resource definition compiled.
#[derive(Debug)]
pub enum Action {
    /// Find this out for the search for the compiler, and ask again.
    Ask(Step),
    /// Run this program with these arguments and wait for its end.
    Run(Location, Vec<Arg>),
    /// Nothing: the resources are compiled.
    Done,
}

/// An [`Action`] as sequences.
pub ghost enum ActionView {
    Ask(StepView),
    Run(LocationView, Seq<ArgView>),
    Done,
}

impl View for Action {
    type V = ActionView;

    open spec fn view(&self) -> ActionView {
        match self {
            Action::Ask(step) => ActionView::Ask(step@),
            Action::Run(program, args) => ActionView::Run(program@, args.deep_view()),
            Action::Done => ActionView::Done,
        }
    }
}

/// The compiler's arguments: `/fo`, the file to write, the file to read.
pub open spec fn arguments(input: LocationView, output: LocationView) -> Seq<ArgView> {
    seq![ArgView::Text("/fo"@), ArgView::Path(output), ArgView::Path(input)]
}

/// What a run of the compiler came to: a compiler that could not be
/// started, one that reported failure, with its exit code, and one that
/// ended without an exit code are three different failures.
pub open spec fn status(exit: ExitView) -> Result<(), CompilerErrorView> {
    match exit {
        ExitView::NotStarted(message) => Err(CompilerErrorView::CommandFailed(message)),
        ExitView::Ended(success, code) => if success {
            Ok(())
        } else {
            match code {
                Some(code) => Err(CompilerErrorView::StatusFailure(code)),
                None => Err(CompilerErrorView::Terminated),
            }
        },
    }
}

/// What is to be done to compile `input` into `output`: the compiler is
/// looked for; once it is found it is run; once it has run, its end decides.
pub open spec fn compiled(
    host: Option<Seq<char>>,
    known: FindingsView,
    input: LocationView,
    output: LocationView,
    exit: Option<ExitView>,
) -> Result<ActionView, CompilerErrorView> {
    match located(host, known) {
        Err(e) => Err(e),
        Ok(SearchView::Found(program)) => match exit {
            None => Ok(ActionView::Run(program, arguments(input, output))),
            Some(exit) => match status(exit) {
                Ok(()) => Ok(ActionView::Done),
                Err(e) => Err(e),
            },
        },
        Ok(SearchView::Ask(step)) => Ok(ActionView::Ask(step)),
    }
}

/// Tells from the end of the compiler's run whether the resources are
/// compiled.
pub fn check_exit(exit: &Exit) -> (r: Result<(), CompilerError>)
    ensures
        match r {
            Ok(()) => status(exit@) == Ok::<(), CompilerErrorView>(()),
            Err(e) => status(exit@) == Err::<(), CompilerErrorView>(e@),
        },
{
    match exit {
        Exit::NotStarted(message) => Err(CompilerError::CommandFailed(message.clone())),
        Exit::Ended(success, code) => {
            if *success {
                Ok(())
            } else {
                match code {
                    Some(code) => Err(CompilerError::StatusFailure(*code)),
                    None => Err(CompilerError::Terminated),
                }
            }
        },
    }
}

/// Compiles the `input` resource (.rc) file and saves it to `output`, as
/// far as what is known allows: the result is what the caller is to do next,
/// or the reason why the resources cannot be compiled.
pub fn compile(
    env: &BuildEnv,
    known: &Findings,
    input: &Location,
    output: &Location,
    exit: &Option<Exit>,
) -> (r: Result<Action, CompilerError>)
    ensures
        match r {
            Ok(action) => compiled(env@.host, known@, input@, output@, exit.deep_view()) == Ok::<
                ActionView,
                CompilerErrorView,
            >(action@),
            Err(e) => compiled(env@.host, known@, input@, output@, exit.deep_view()) == Err::<
                ActionView,
                CompilerErrorView,
            >(e@),
        },
{
    match compiler(env, known) {
        Err(e) => Err(e),
        Ok(Search::Found(program)) => match exit {
            None => {
                let mut args: Vec<Arg> = Vec::new();
                args.push(Arg::Text(owned("/fo")));
                args.push(Arg::Path(output.duplicate()));
                args.push(Arg::Path(input.duplicate()));
                proof {
                    assert(args.deep_view() =~= arguments(input@, output@));
                }
                Ok(Action::Run(program, args))
            },
            Some(exit) => match check_exit(exit) {
                Ok(()) => Ok(Action::Done),
                Err(e) => Err(e),
            },
        },
        Ok(Search::Ask(step)) => Ok(Action::Ask(step)),
    }
}

} // verus!
