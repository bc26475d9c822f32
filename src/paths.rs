//! Paths the launcher works with: the bytes of a string value read from the
//! registry, and where a Steam library keeps the game.

use vstd::prelude::*;
use vstd::string::{StringExecFns, StringSliceAdditionalSpecFns};

verus! {

/// The text of a registry string value: the `reported` bytes the query
/// filled, without the closing NUL; `None` where the query reported no bytes
/// or more than the buffer holds.
pub fn registry_value_bytes(buffer: &[u8], reported: u32) -> (r: Option<Vec<u8>>)
    ensures
        r is Some <==> 1 <= reported && reported as int <= buffer@.len(),
        r matches Some(v) ==> v@ == buffer@.subrange(0, reported as int - 1),
{
    if reported == 0 || reported as usize > buffer.len() {
        return None;
    }
    let n = (reported - 1) as usize;
    let mut out: Vec<u8> = Vec::new();
    let mut i: usize = 0;
    while i < n
        invariant
            i <= n,
            n < buffer@.len(),
            out@ =~= buffer@.subrange(0, i as int),
        decreases n - i,
    {
        out.push(buffer[i]);
        i = i + 1;
    }
    Some(out)
}

pub open spec fn ends_with_separator(s: Seq<u8>) -> bool {
    s.len() > 0 && (s.last() == 92u8 || s.last() == 47u8)
}

/// Where the game's executable lies below the Steam install directory.
pub open spec fn steam_game_suffix() -> Seq<char> {
    "steamapps\\common\\Mafia II Definitive Edition\\pc\\Mafia II Definitive Edition.exe"@
}

/// The game's executable in the Steam install at `steam_dir`, joined with a
/// backslash unless `steam_dir` already ends with a separator.
pub fn steam_game_path(steam_dir: &str) -> (r: String)
    ensures
        ends_with_separator(steam_dir.spec_bytes()) ==> r@ == steam_dir@ + steam_game_suffix(),
        !ends_with_separator(steam_dir.spec_bytes()) ==> r@ == steam_dir@ + "\\"@ + steam_game_suffix(),
{
    let b = steam_dir.as_bytes();
    let mut s = String::from_str(steam_dir);
    if !(b.len() > 0 && (b[b.len() - 1] == 92u8 || b[b.len() - 1] == 47u8)) {
        s.append("\\");
    }
    s.append("steamapps\\common\\Mafia II Definitive Edition\\pc\\Mafia II Definitive Edition.exe");
    s
}

} // verus!
