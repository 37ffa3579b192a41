//! Where the token that spares the user a second question is kept, and what is
//! read from the file it is kept in.
//!
//! Paths are Unix paths: any bytes, with a slash between the names.
use vstd::prelude::*;
use vstd::string::StrSliceExecFns;
use vstd::utf8::encode_utf8;
#[allow(unused_imports)]
use vstd::utf8::is_ascii_chars_encode_utf8;

use crate::text::{chars_of, trim_bounds};
#[allow(unused_imports)]
use crate::text::{law_trimming, lemma_trimmed_ends, trimmed, white_space};

verus! {

/// What stands between the names of a path.
pub const SLASH: u8 = 0x2f;

/// A relative name below a directory.
pub open spec fn joined(dir: Seq<u8>, name: Seq<char>) -> Seq<u8> {
    if dir.len() == 0 || dir.last() == SLASH {
        dir + encode_utf8(name)
    } else {
        dir.push(SLASH) + encode_utf8(name)
    }
}

/// The directory for the user's settings: the one that is set for them, unless
/// it is set to nothing, and else `.config` in the home directory.
pub open spec fn config_dir(config_home: Option<Seq<u8>>, home: Option<Seq<u8>>) -> Option<Seq<u8>> {
    if config_home is Some && config_home->0.len() > 0 {
        config_home
    } else {
        match home {
            Some(dir) => Some(joined(dir, ".config"@)),
            None => None,
        }
    }
}

/// The file that the token is kept in, below the directory for the user's
/// settings.
pub open spec fn token_file(config_home: Option<Seq<u8>>, home: Option<Seq<u8>>) -> Option<Seq<u8>> {
    match config_dir(config_home, home) {
        Some(dir) => Some(joined(joined(dir, "colza"@), "screencast-restore-token"@)),
        None => None,
    }
}

/// The bytes of an optional path.
pub open spec fn bytes_of(path: Option<Vec<u8>>) -> Option<Seq<u8>> {
    match path {
        Some(bytes) => Some(bytes@),
        None => None,
    }
}

fn join(dir: Vec<u8>, name: &str) -> (res: Vec<u8>)
    ensures
        res@ == joined(dir@, name@),
{
    let mut out: Vec<u8> = dir;
    if out.len() > 0 && out[out.len() - 1] != SLASH {
        out.push(SLASH);
    }
    let bytes = name.as_bytes();
    let ghost start = out@;
    let mut i: usize = 0;
    while i < bytes.len()
        invariant
            i <= bytes@.len(),
            out@ == start + bytes@.take(i as int),
        decreases bytes@.len() - i,
    {
        assert(bytes@.take(i + 1) == bytes@.take(i as int).push(bytes@[i as int]));
        out.push(bytes[i]);
        i = i + 1;
    }
    assert(bytes@.take(i as int) == bytes@);
    out
}

/// The file that the token is kept in, from the values of `XDG_CONFIG_HOME` and
/// `HOME`: `colza/screencast-restore-token` below the directory for the user's
/// settings. `None` where neither says where that is.
pub fn token_path(config_home: Option<Vec<u8>>, home: Option<Vec<u8>>) -> (res: Option<Vec<u8>>)
    ensures
        bytes_of(res) == token_file(bytes_of(config_home), bytes_of(home)),
{
    let dir = match config_home {
        Some(dir) if dir.len() > 0 => dir,
        _ => match home {
            Some(dir) => join(dir, ".config"),
            None => {
                return None;
            },
        },
    };
    Some(join(join(dir, "colza"), "screencast-restore-token"))
}

/// The token in the text of the file: all of it but whitespace at its ends,
/// which a newline after it would be. `None` where nothing is left.
pub fn token_in(text: &str) -> (res: Option<String>)
    ensures
        match res {
            Some(token) => token@ == trimmed(text@) && token@.len() > 0 && !white_space(token@[0])
                && !white_space(token@.last()),
            None => trimmed(text@).len() == 0,
        },
{
    let (from, to) = trim_bounds(&chars_of(text));
    proof {
        lemma_trimmed_ends(text@);
    }
    if from == to {
        None
    } else {
        Some(text.substring_char(from, to).to_owned())
    }
}

/// A token that is written to the file as it is, or with whitespace round it, is
/// read from it again: unless it is empty, or has whitespace at its own ends,
/// which no reading keeps.
pub proof fn law_a_kept_token_is_found(token: Seq<char>, before: Seq<char>, after: Seq<char>)
    requires
        token.len() > 0,
        !white_space(token[0]),
        !white_space(token.last()),
        forall|i: int| 0 <= i < before.len() ==> white_space(#[trigger] before[i]),
        forall|i: int| 0 <= i < after.len() ==> white_space(#[trigger] after[i]),
    ensures
        trimmed(before + token + after) == token,
{
    law_trimming(before, token, after);
}

/// The token's file is `colza/screencast-restore-token` below the directory for
/// settings, with one slash before each name: below the one that is set, if it is
/// set to anything, and else below `.config` in the home directory. A slash that a
/// directory ends in is not repeated.
pub proof fn law_token_file(dir: Seq<u8>, home: Option<Seq<u8>>)
    ensures
        ({
            let slash = if dir.len() == 0 || dir.last() == 0x2f {
                Seq::<u8>::empty()
            } else {
                seq![0x2fu8]
            };
            let below = encode_utf8("colza"@) + seq![0x2fu8] + encode_utf8(
                "screencast-restore-token"@,
            );
            let settings = encode_utf8(".config"@) + seq![0x2fu8];
            &&& dir.len() > 0 ==> token_file(Some(dir), home) == Some(dir + slash + below)
            &&& token_file(None, Some(dir)) == Some(dir + slash + settings + below)
            &&& token_file(Some(Seq::empty()), Some(dir)) == Some(dir + slash + settings + below)
            &&& token_file(Some(Seq::empty()), None) is None
            &&& token_file(None, None) is None
        }),
{
    lemma_names_end_in_letters();
    lemma_token_below(dir);
    let config = joined(dir, ".config"@);
    lemma_token_below(config);
    assert(config.last() == encode_utf8(".config"@).last());
    let slash = if dir.len() == 0 || dir.last() == 0x2f {
        Seq::<u8>::empty()
    } else {
        seq![0x2fu8]
    };
    let below = encode_utf8("colza"@) + seq![0x2fu8] + encode_utf8("screencast-restore-token"@);
    let settings = encode_utf8(".config"@) + seq![0x2fu8];
    assert(config + seq![0x2fu8] + below == dir + slash + settings + below);
}

proof fn lemma_names_end_in_letters()
    ensures
        encode_utf8("colza"@).len() > 0,
        encode_utf8("colza"@).last() != 0x2f,
        encode_utf8(".config"@).len() > 0,
        encode_utf8(".config"@).last() != 0x2f,
{
    reveal_strlit("colza");
    reveal_strlit(".config");
    is_ascii_chars_encode_utf8("colza"@);
    is_ascii_chars_encode_utf8(".config"@);
}

proof fn lemma_token_below(dir: Seq<u8>)
    ensures
        joined(joined(dir, "colza"@), "screencast-restore-token"@) == dir + (if dir.len() == 0
            || dir.last() == 0x2f {
            Seq::<u8>::empty()
        } else {
            seq![0x2fu8]
        }) + (encode_utf8("colza"@) + seq![0x2fu8] + encode_utf8("screencast-restore-token"@)),
{
    lemma_names_end_in_letters();
    let inner = joined(dir, "colza"@);
    assert(inner.last() == encode_utf8("colza"@).last());
}

/// A path that is given is taken byte by byte.
pub proof fn law_paths_keep_their_bytes(path: Vec<u8>)
    ensures
        bytes_of(Some(path)) == Some(path@),
        bytes_of(None) is None,
{
}

} // verus!
