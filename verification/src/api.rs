//! The addresses of the API's operations: path and query for each call.

use vstd::prelude::*;
use vstd::string::StringExecFns;
use crate::parameters::SearchModsParameters;
use crate::text::{
    decimal, joined, number_of, push_decimal, push_number, push_opt_number, push_opt_word, widen,
    with_number, with_word,
};

verus! {

/// The word that a boolean is written as in a query.
pub open spec fn bool_word(b: bool) -> Seq<char> {
    if b {
        "true"@
    } else {
        "false"@
    }
}

/// The pairs of a listing of categories: the game, then the class and the
/// restriction to classes where they are given.
pub open spec fn categories_pairs(
    game_id: u32,
    class_id: Option<u32>,
    classes_only: Option<bool>,
) -> Seq<(Seq<char>, Seq<char>)> {
    let s = seq![("gameId"@, decimal(game_id as nat))];
    let s = with_number(s, "classId"@, number_of(class_id));
    with_word(
        s,
        "classesOnly"@,
        match classes_only {
            Some(b) => Some(bool_word(b)),
            None => None,
        },
    )
}

/// The query of a listing of categories, with its question mark.
pub fn categories_query(game_id: u32, class_id: Option<u32>, classes_only: Option<bool>) -> (r:
    String)
    ensures
        r@ == seq!['?'] + joined(categories_pairs(game_id, class_id, classes_only)),
{
    let mut out = String::new();
    let ghost mut done: Seq<(Seq<char>, Seq<char>)> = Seq::empty();
    push_number(&mut out, Ghost(done), true, "gameId", game_id as u64);
    proof {
        done = done.push(("gameId"@, decimal(game_id as nat)));
        assert(done =~= seq![("gameId"@, decimal(game_id as nat))]);
    }
    push_opt_number(&mut out, Ghost(done), "classId", widen(class_id));
    proof {
        done = with_number(done, "classId"@, number_of(class_id));
    }
    let word = match classes_only {
        Some(true) => Some("true"),
        Some(false) => Some("false"),
        None => None,
    };
    push_opt_word(&mut out, Ghost(done), "classesOnly", word);
    let mut r = String::new();
    r.append("?");
    r.append(out.as_str());
    proof {
        reveal_strlit("?");
        assert("?"@ =~= seq!['?']);
        assert(r@ =~= seq!['?'] + out@);
    }
    r
}

/// The address of a listing of categories.
pub fn categories_url(
    base_url: &str,
    game_id: u32,
    class_id: Option<u32>,
    classes_only: Option<bool>,
) -> (r: String)
    ensures
        r@ == base_url@ + "/v1/categories"@ + seq!['?'] + joined(
            categories_pairs(game_id, class_id, classes_only),
        ),
{
    let query = categories_query(game_id, class_id, classes_only);
    let mut r = String::new();
    r.append(base_url);
    r.append("/v1/categories");
    r.append(query.as_str());
    proof {
        assert(r@ =~= base_url@ + "/v1/categories"@ + seq!['?'] + joined(
            categories_pairs(game_id, class_id, classes_only),
        ));
    }
    r
}

/// The address of one mod.
pub fn mod_url(base_url: &str, mod_id: u32) -> (r: String)
    ensures
        r@ == base_url@ + "/v1/mods/"@ + decimal(mod_id as nat),
{
    let mut r = String::new();
    r.append(base_url);
    r.append("/v1/mods/");
    push_decimal(&mut r, mod_id as u64);
    proof {
        assert(r@ =~= base_url@ + "/v1/mods/"@ + decimal(mod_id as nat));
    }
    r
}

/// The address of a search for mods.
pub fn search_mods_url(base_url: &str, params: &SearchModsParameters) -> (r: String)
    ensures
        r@ == base_url@ + "/v1/mods/search?"@ + SearchModsParameters::query(params@),
{
    let query = params.build();
    let mut r = String::new();
    r.append(base_url);
    r.append("/v1/mods/search?");
    r.append(query.as_str());
    proof {
        assert(r@ =~= base_url@ + "/v1/mods/search?"@ + SearchModsParameters::query(params@));
    }
    r
}

} // verus!
