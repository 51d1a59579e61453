//! The bytes std's `Hash` feeds a hasher for flake references, as the
//! Northstar builds in the store are named by them. The bytes are those of a
//! 64-bit little-endian Unix target; elsewhere (32-bit or big-endian
//! machines, and Windows for references to local paths) std would feed
//! others.
use vstd::prelude::*;
use crate::flake::{FlakeRef, ForgeRef};
use std::hash::{DefaultHasher, Hasher};

verus! {

/// The bytes of a text (UTF-8).
pub open spec fn text_bytes(s: Seq<char>) -> Seq<u8> {
    vstd::utf8::encode_utf8(s)
}

/// `n` written as `k` bytes, least significant first.
pub open spec fn le_bytes(n: nat, k: nat) -> Seq<u8>
    decreases k,
{
    if k == 0 {
        Seq::empty()
    } else {
        seq![(n % 256) as u8] + le_bytes(n / 256, (k - 1) as nat)
    }
}

/// What std's `Hash` feeds a hasher for a `u64`, a `usize` or an `isize`
/// on a 64-bit little-endian target: its 8 bytes, least significant first.
pub open spec fn word_feed(n: nat) -> Seq<Seq<u8>> {
    seq![le_bytes(n, 8)]
}

/// What std's `Hash` feeds for a text: its bytes, then the byte `0xff`.
pub open spec fn text_feed(s: Seq<char>) -> Seq<Seq<u8>> {
    seq![text_bytes(s), seq![0xffu8]]
}

/// What std's `Hash` feeds for a flag: one byte, 1 or 0.
pub open spec fn flag_feed(b: bool) -> Seq<Seq<u8>> {
    seq![seq![if b { 1u8 } else { 0u8 }]]
}

/// What std's `Hash` feeds for the variant of an `Option`: its
/// discriminant, 1 for `Some` and 0 for `None`, as an `isize`.
pub open spec fn tag_feed(some: bool) -> Seq<Seq<u8>> {
    word_feed(if some { 1 } else { 0 })
}

/// What std's `Hash` feeds for an optional text: the tag, then the text.
pub open spec fn opt_text_feed(o: Option<String>) -> Seq<Seq<u8>> {
    match o {
        Some(s) => tag_feed(true) + text_feed(s@),
        None => tag_feed(false),
    }
}

/// What std's `Hash` feeds for an optional `u64`: the tag, then the number.
pub open spec fn opt_number_feed(o: Option<u64>) -> Seq<Seq<u8>> {
    match o {
        Some(n) => tag_feed(true) + word_feed(n as nat),
        None => tag_feed(false),
    }
}

/// What is fed for the texts of a list, one after the other.
pub open spec fn texts_feed(v: Seq<String>) -> Seq<Seq<u8>>
    decreases v.len(),
{
    if v.len() == 0 {
        Seq::empty()
    } else {
        texts_feed(v.drop_last()) + text_feed(v.last()@)
    }
}

/// What std's `Hash` feeds for an optional list of texts: the tag, then the
/// list's length as a `usize` and its texts.
pub open spec fn opt_texts_feed(o: Option<Vec<String>>) -> Seq<Seq<u8>> {
    match o {
        Some(v) => tag_feed(true) + word_feed(v@.len()) + texts_feed(v@),
        None => tag_feed(false),
    }
}

/// The `/` byte.
pub open spec fn is_slash(b: u8) -> bool {
    b == 0x2f
}

/// The running value that std's `Hash` for paths mixes the length of each
/// component into: the length added (wrapping), then the bits rotated right
/// by two.
pub open spec fn mix_bits(bits: u64, n: u64) -> u64 {
    let a = bits.wrapping_add(n);
    (a >> 2u64) | (a << 62u64)
}

/// Where the component after a separator at `i` starts: right after it,
/// or one further when what follows is a lone `.` component.
pub open spec fn after_separator(b: Seq<u8>, i: int) -> int {
    let s = i + 1;
    if s < b.len() && b[s] == 0x2e && (s + 1 == b.len() || is_slash(b[s + 1])) {
        s + 1
    } else {
        s
    }
}

/// The components std's `Hash` writes for the bytes of a Unix path from
/// position `i` on, when the current component starts at `start` and the
/// running value is `bits`: each run of bytes between separators (skipping a
/// `.` right after a separator), and the final running value.
pub open spec fn path_walk(b: Seq<u8>, i: int, start: int, bits: u64) -> (Seq<Seq<u8>>, u64)
    decreases b.len() - i,
{
    if i >= b.len() {
        if start < b.len() {
            (seq![b.subrange(start, b.len() as int)], mix_bits(bits, (b.len() - start) as u64))
        } else {
            (Seq::empty(), bits)
        }
    } else if is_slash(b[i]) {
        let rest = if i > start {
            path_walk(b, i + 1, after_separator(b, i), mix_bits(bits, (i - start) as u64))
        } else {
            path_walk(b, i + 1, after_separator(b, i), bits)
        };
        if i > start {
            (seq![b.subrange(start, i)] + rest.0, rest.1)
        } else {
            rest
        }
    } else {
        path_walk(b, i + 1, start, bits)
    }
}

/// What std's `Hash` feeds for a Unix path (64-bit): its components (see
/// `path_walk`), then the running value as a `usize`.
pub open spec fn path_feed(p: Seq<char>) -> Seq<Seq<u8>> {
    let w = path_walk(text_bytes(p), 0, 0, 0);
    w.0 + word_feed(w.1 as nat)
}

/// What is fed for a forge reference: its fields in declaration order.
pub open spec fn forge_feed(f: ForgeRef) -> Seq<Seq<u8>> {
    text_feed(f.owner@) + text_feed(f.repo@) + opt_text_feed(f.host) + opt_text_feed(f.keytype)
        + opt_text_feed(f.public_key) + opt_texts_feed(f.public_keys) + opt_text_feed(f.git_ref)
        + opt_text_feed(f.rev)
}

/// What is fed to the hasher for a file or tarball reference.
pub open spec fn file_like_feed(
    last_modified: Option<u64>,
    nar_hash: Option<String>,
    rev: Option<String>,
    rev_count: Option<u64>,
    url: Seq<char>,
) -> Seq<Seq<u8>> {
    opt_number_feed(last_modified) + opt_text_feed(nar_hash) + opt_text_feed(rev)
        + opt_number_feed(rev_count) + text_feed(url)
}

/// What std's `Hash` feeds, on a 64-bit little-endian Unix target, for
/// each field of a flake reference in declaration order, with nothing that
/// tells the kinds of reference apart (a URL is fed as its text).
pub open spec fn flake_feed(f: FlakeRef) -> Seq<Seq<u8>> {
    match f {
        FlakeRef::File { last_modified, nar_hash, rev, rev_count, url } => file_like_feed(
            last_modified,
            nar_hash,
            rev,
            rev_count,
            url@,
        ),
        FlakeRef::Git {
            all_refs,
            export_ignore,
            keytype,
            public_key,
            public_keys,
            git_ref,
            rev,
            shallow,
            submodules,
            url,
            verify_commit,
        } => flag_feed(all_refs) + flag_feed(export_ignore) + opt_text_feed(keytype) + opt_text_feed(
            public_key,
        ) + opt_texts_feed(public_keys) + opt_text_feed(git_ref) + opt_text_feed(rev) + flag_feed(
            shallow,
        ) + flag_feed(submodules) + text_feed(url@) + flag_feed(verify_commit),
        FlakeRef::GitHub(fr) => forge_feed(fr),
        FlakeRef::GitLab(fr) => forge_feed(fr),
        FlakeRef::Indirect { id, git_ref, rev } => text_feed(id@) + opt_text_feed(git_ref)
            + opt_text_feed(rev),
        FlakeRef::Mercurial { git_ref, rev } => opt_text_feed(git_ref) + opt_text_feed(rev),
        FlakeRef::Path { last_modified, nar_hash, path, rev, rev_count } => opt_number_feed(
            last_modified,
        ) + opt_text_feed(nar_hash) + path_feed(path@) + opt_text_feed(rev) + opt_number_feed(
            rev_count,
        ),
        FlakeRef::SourceHut(fr) => forge_feed(fr),
        FlakeRef::Tarball { last_modified, nar_hash, rev, rev_count, url } => file_like_feed(
            last_modified,
            nar_hash,
            rev,
            rev_count,
            url@,
        ),
    }
}

fn feed_text(h: &mut DefaultHasher, s: &str)
    ensures
        final(h)@ == old(h)@ + text_feed(s@),
{
    h.write(s.as_bytes());
    let end: [u8; 1] = [0xffu8];
    h.write(&end);
    assert(end@ =~= seq![0xffu8]);
    assert(old(h)@.push(text_bytes(s@)).push(end@) =~= old(h)@ + text_feed(s@));
}

fn feed_flag(h: &mut DefaultHasher, b: bool)
    ensures
        final(h)@ == old(h)@ + flag_feed(b),
{
    let byte: [u8; 1] = [if b { 1u8 } else { 0u8 }];
    h.write(&byte);
    assert(byte@ =~= seq![if b { 1u8 } else { 0u8 }]);
    assert(old(h)@.push(byte@) =~= old(h)@ + flag_feed(b));
}

/// The 8 bytes of `n`, least significant first.
fn word_bytes(n: u64) -> (r: Vec<u8>)
    ensures
        r@ == le_bytes(n as nat, 8),
{
    let mut r: Vec<u8> = Vec::new();
    let mut x: u64 = n;
    let mut i: usize = 0;
    assert(r@ + le_bytes(x as nat, 8) =~= le_bytes(n as nat, 8));
    while i < 8
        invariant
            i <= 8,
            r@ + le_bytes(x as nat, (8 - i) as nat) == le_bytes(n as nat, 8),
        decreases 8 - i,
    {
        let b = (x % 256) as u8;
        let ghost before = r@;
        let ghost rest = le_bytes((x / 256) as nat, (8 - i - 1) as nat);
        assert(le_bytes(x as nat, (8 - i) as nat) == seq![b] + rest);
        r.push(b);
        assert(before + (seq![b] + rest) =~= r@ + rest);
        x = x / 256;
        i = i + 1;
    }
    r
}

fn feed_word(h: &mut DefaultHasher, n: u64)
    ensures
        final(h)@ == old(h)@ + word_feed(n as nat),
{
    let bytes = word_bytes(n);
    h.write(bytes.as_slice());
    assert(old(h)@.push(bytes@) =~= old(h)@ + word_feed(n as nat));
}

fn feed_tag(h: &mut DefaultHasher, some: bool)
    ensures
        final(h)@ == old(h)@ + tag_feed(some),
{
    feed_word(h, if some { 1 } else { 0 });
}

fn feed_opt_text(h: &mut DefaultHasher, o: &Option<String>)
    ensures
        final(h)@ == old(h)@ + opt_text_feed(*o),
{
    match o {
        Some(s) => {
            feed_tag(h, true);
            feed_text(h, s.as_str());
            assert(old(h)@ + tag_feed(true) + text_feed(s@) =~= old(h)@ + opt_text_feed(*o));
        },
        None => feed_tag(h, false),
    }
}

fn feed_opt_number(h: &mut DefaultHasher, o: Option<u64>)
    ensures
        final(h)@ == old(h)@ + opt_number_feed(o),
{
    match o {
        Some(n) => {
            feed_tag(h, true);
            feed_word(h, n);
            assert(old(h)@ + tag_feed(true) + word_feed(n as nat) =~= old(h)@ + opt_number_feed(o));
        },
        None => feed_tag(h, false),
    }
}

#[verifier::spinoff_prover]
#[verifier::rlimit(50)]
fn feed_opt_texts(h: &mut DefaultHasher, o: &Option<Vec<String>>)
    ensures
        final(h)@ == old(h)@ + opt_texts_feed(*o),
{
    match o {
        Some(v) => {
            feed_tag(h, true);
            feed_word(h, v.len() as u64);
            let ghost head = h@;
            let mut i: usize = 0;
            assert(v@.take(0) =~= Seq::<String>::empty());
            assert(head =~= head + texts_feed(v@.take(0)));
            while i < v.len()
                invariant
                    i <= v.len(),
                    h@ == head + texts_feed(v@.take(i as int)),
                decreases v.len() - i,
            {
                feed_text(h, v[i].as_str());
                assert(v@.take(i + 1).drop_last() =~= v@.take(i as int));
                assert(head + texts_feed(v@.take(i + 1)) =~= head + texts_feed(v@.take(i as int))
                    + text_feed(v@[i as int]@));
                i = i + 1;
            }
            assert(v@.take(i as int) =~= v@);
            assert(old(h)@ + tag_feed(true) + word_feed(v@.len()) + texts_feed(v@) =~= old(h)@
                + opt_texts_feed(*o));
        },
        None => feed_tag(h, false),
    }
}

fn copy_range(b: &[u8], from: usize, to: usize) -> (r: Vec<u8>)
    requires
        from <= to <= b@.len(),
    ensures
        r@ == b@.subrange(from as int, to as int),
{
    let mut r: Vec<u8> = Vec::new();
    let mut k: usize = from;
    while k < to
        invariant
            from <= k <= to <= b@.len(),
            r@ == b@.subrange(from as int, k as int),
        decreases to - k,
    {
        r.push(b[k]);
        assert(r@ =~= b@.subrange(from as int, k + 1));
        k = k + 1;
    }
    r
}

#[verifier::spinoff_prover]
#[verifier::rlimit(50)]
fn feed_path(h: &mut DefaultHasher, p: &str)
    ensures
        final(h)@ == old(h)@ + path_feed(p@),
{
    let b = p.as_bytes();
    let ghost bs = text_bytes(p@);
    assert(b@ == bs);
    let n = b.len();
    let mut i: usize = 0;
    let mut start: usize = 0;
    let mut bits: u64 = 0;
    let ghost total = path_walk(bs, 0, 0, 0);
    assert(h@ + total.0 =~= old(h)@ + total.0);
    while i < n
        invariant
            n == b@.len(),
            b@ == bs,
            i <= n,
            start <= n,
            h@ + path_walk(bs, i as int, start as int, bits).0 == old(h)@ + total.0,
            path_walk(bs, i as int, start as int, bits).1 == total.1,
        decreases n - i,
    {
        let ghost w = path_walk(bs, i as int, start as int, bits);
        if b[i] == 0x2f {
            let ghost h0 = h@;
            if i > start {
                let chunk = copy_range(b, start, i);
                h.write(chunk.as_slice());
                bits = bits.wrapping_add((i - start) as u64);
                bits = (bits >> 2u64) | (bits << 62u64);
            }
            let s = i + 1;
            let next = if s < n && b[s] == 0x2e && (s + 1 == n || b[s + 1] == 0x2f) {
                s + 1
            } else {
                s
            };
            assert(next == after_separator(bs, i as int));
            let ghost rest = path_walk(bs, i + 1, next as int, bits);
            assert(h@ + rest.0 =~= h0 + w.0);
            start = next;
        }
        i = i + 1;
    }
    let ghost h1 = h@;
    if start < n {
        let chunk = copy_range(b, start, n);
        h.write(chunk.as_slice());
        bits = bits.wrapping_add((n - start) as u64);
        bits = (bits >> 2u64) | (bits << 62u64);
    }
    assert(h@ =~= old(h)@ + total.0);
    feed_word(h, bits);
    assert(old(h)@ + total.0 + word_feed(total.1 as nat) =~= old(h)@ + path_feed(p@));
}

#[verifier::spinoff_prover]
#[verifier::rlimit(50)]
fn feed_forge(h: &mut DefaultHasher, f: &ForgeRef)
    ensures
        final(h)@ == old(h)@ + forge_feed(*f),
{
    feed_text(h, f.owner.as_str());
    let ghost a0 = text_feed(f.owner@);
    feed_text(h, f.repo.as_str());
    let ghost a1 = a0 + text_feed(f.repo@);
    assert(h@ =~= old(h)@ + a1);
    feed_opt_text(h, &f.host);
    let ghost a2 = a1 + opt_text_feed(f.host);
    assert(h@ =~= old(h)@ + a2);
    feed_opt_text(h, &f.keytype);
    let ghost a3 = a2 + opt_text_feed(f.keytype);
    assert(h@ =~= old(h)@ + a3);
    feed_opt_text(h, &f.public_key);
    let ghost a4 = a3 + opt_text_feed(f.public_key);
    assert(h@ =~= old(h)@ + a4);
    feed_opt_texts(h, &f.public_keys);
    let ghost a5 = a4 + opt_texts_feed(f.public_keys);
    assert(h@ =~= old(h)@ + a5);
    feed_opt_text(h, &f.git_ref);
    let ghost a6 = a5 + opt_text_feed(f.git_ref);
    assert(h@ =~= old(h)@ + a6);
    feed_opt_text(h, &f.rev);
    let ghost a7 = a6 + opt_text_feed(f.rev);
    assert(h@ =~= old(h)@ + a7);
}

#[verifier::spinoff_prover]
#[verifier::rlimit(50)]
fn feed_file_like(
    h: &mut DefaultHasher,
    last_modified: Option<u64>,
    nar_hash: &Option<String>,
    rev: &Option<String>,
    rev_count: Option<u64>,
    url: &String,
)
    ensures
        final(h)@ == old(h)@ + file_like_feed(last_modified, *nar_hash, *rev, rev_count, url@),
{
    feed_opt_number(h, last_modified);
    let ghost a0 = opt_number_feed(last_modified);
    feed_opt_text(h, nar_hash);
    let ghost a1 = a0 + opt_text_feed(*nar_hash);
    assert(h@ =~= old(h)@ + a1);
    feed_opt_text(h, rev);
    let ghost a2 = a1 + opt_text_feed(*rev);
    assert(h@ =~= old(h)@ + a2);
    feed_opt_number(h, rev_count);
    let ghost a3 = a2 + opt_number_feed(rev_count);
    assert(h@ =~= old(h)@ + a3);
    feed_text(h, url.as_str());
    let ghost a4 = a3 + text_feed(url@);
    assert(h@ =~= old(h)@ + a4);
}

#[verifier::spinoff_prover]
#[verifier::rlimit(50)]
fn feed_git(h: &mut DefaultHasher, f: &FlakeRef)
    requires
        f is Git,
    ensures
        final(h)@ == old(h)@ + flake_feed(*f),
{
    match f {
        FlakeRef::Git {
            all_refs,
            export_ignore,
            keytype,
            public_key,
            public_keys,
            git_ref,
            rev,
            shallow,
            submodules,
            url,
            verify_commit,
        } => {
            feed_flag(h, *all_refs);
            let ghost a0 = flag_feed(*all_refs);
            feed_flag(h, *export_ignore);
            let ghost a1 = a0 + flag_feed(*export_ignore);
            assert(h@ =~= old(h)@ + a1);
            feed_opt_text(h, keytype);
            let ghost a2 = a1 + opt_text_feed(*keytype);
            assert(h@ =~= old(h)@ + a2);
            feed_opt_text(h, public_key);
            let ghost a3 = a2 + opt_text_feed(*public_key);
            assert(h@ =~= old(h)@ + a3);
            feed_opt_texts(h, public_keys);
            let ghost a4 = a3 + opt_texts_feed(*public_keys);
            assert(h@ =~= old(h)@ + a4);
            feed_opt_text(h, git_ref);
            let ghost a5 = a4 + opt_text_feed(*git_ref);
            assert(h@ =~= old(h)@ + a5);
            feed_opt_text(h, rev);
            let ghost a6 = a5 + opt_text_feed(*rev);
            assert(h@ =~= old(h)@ + a6);
            feed_flag(h, *shallow);
            let ghost a7 = a6 + flag_feed(*shallow);
            assert(h@ =~= old(h)@ + a7);
            feed_flag(h, *submodules);
            let ghost a8 = a7 + flag_feed(*submodules);
            assert(h@ =~= old(h)@ + a8);
            feed_text(h, url.as_str());
            let ghost a9 = a8 + text_feed(url@);
            assert(h@ =~= old(h)@ + a9);
            feed_flag(h, *verify_commit);
            let ghost a10 = a9 + flag_feed(*verify_commit);
            assert(h@ =~= old(h)@ + a10);
            assert(a10 == flake_feed(*f));
        },
        _ => {},
    }
}

#[verifier::spinoff_prover]
#[verifier::rlimit(50)]
fn feed_path_ref(h: &mut DefaultHasher, f: &FlakeRef)
    requires
        f is Path,
    ensures
        final(h)@ == old(h)@ + flake_feed(*f),
{
    match f {
        FlakeRef::Path { last_modified, nar_hash, path, rev, rev_count } => {
            feed_opt_number(h, *last_modified);
            let ghost a0 = opt_number_feed(*last_modified);
            feed_opt_text(h, nar_hash);
            let ghost a1 = a0 + opt_text_feed(*nar_hash);
            assert(h@ =~= old(h)@ + a1);
            feed_path(h, path.as_str());
            let ghost a2 = a1 + path_feed(path@);
            assert(h@ =~= old(h)@ + a2);
            feed_opt_text(h, rev);
            let ghost a3 = a2 + opt_text_feed(*rev);
            assert(h@ =~= old(h)@ + a3);
            feed_opt_number(h, *rev_count);
            let ghost a4 = a3 + opt_number_feed(*rev_count);
            assert(h@ =~= old(h)@ + a4);
        },
        _ => {},
    }
}

#[verifier::spinoff_prover]
#[verifier::rlimit(50)]
fn feed_indirect(h: &mut DefaultHasher, f: &FlakeRef)
    requires
        f is Indirect,
    ensures
        final(h)@ == old(h)@ + flake_feed(*f),
{
    match f {
        FlakeRef::Indirect { id, git_ref, rev } => {
            feed_text(h, id.as_str());
            feed_opt_text(h, git_ref);
            feed_opt_text(h, rev);
            assert(h@ =~= old(h)@ + flake_feed(*f));
        },
        _ => {},
    }
}

#[verifier::spinoff_prover]
#[verifier::rlimit(50)]
fn feed_file(h: &mut DefaultHasher, f: &FlakeRef)
    requires
        f is File || f is Tarball,
    ensures
        final(h)@ == old(h)@ + flake_feed(*f),
{
    match f {
        FlakeRef::File { last_modified, nar_hash, rev, rev_count, url } => {
            feed_file_like(h, *last_modified, nar_hash, rev, *rev_count, url);
        },
        FlakeRef::Tarball { last_modified, nar_hash, rev, rev_count, url } => {
            feed_file_like(h, *last_modified, nar_hash, rev, *rev_count, url);
        },
        _ => {},
    }
}

#[verifier::spinoff_prover]
#[verifier::rlimit(50)]
fn feed_mercurial(h: &mut DefaultHasher, f: &FlakeRef)
    requires
        f is Mercurial,
    ensures
        final(h)@ == old(h)@ + flake_feed(*f),
{
    match f {
        FlakeRef::Mercurial { git_ref, rev } => {
            feed_opt_text(h, git_ref);
            feed_opt_text(h, rev);
        },
        _ => {},
    }
}

#[verifier::spinoff_prover]
#[verifier::rlimit(50)]
fn feed_forge_ref(h: &mut DefaultHasher, f: &FlakeRef)
    requires
        f is GitHub || f is GitLab || f is SourceHut,
    ensures
        final(h)@ == old(h)@ + flake_feed(*f),
{
    match f {
        FlakeRef::GitHub(fr) => feed_forge(h, fr),
        FlakeRef::GitLab(fr) => feed_forge(h, fr),
        FlakeRef::SourceHut(fr) => feed_forge(h, fr),
        _ => {},
    }
}

#[verifier::spinoff_prover]
#[verifier::rlimit(50)]
pub(crate) fn feed_flake_ref(h: &mut DefaultHasher, f: &FlakeRef)
    ensures
        final(h)@ == old(h)@ + flake_feed(*f),
{
    match f {
        FlakeRef::File { .. } | FlakeRef::Tarball { .. } => feed_file(h, f),
        FlakeRef::Git { .. } => feed_git(h, f),
        FlakeRef::GitHub(_) | FlakeRef::GitLab(_) | FlakeRef::SourceHut(_) => feed_forge_ref(h, f),
        FlakeRef::Indirect { .. } => feed_indirect(h, f),
        FlakeRef::Mercurial { .. } => feed_mercurial(h, f),
        FlakeRef::Path { .. } => feed_path_ref(h, f),
    }
}


} // verus!
