//! Choosing the vPIC schemas that describe a VIN: the VIN schema among
//! those of the manufacturer's WMI, and the vehicle spec schema among those
//! of the make.
use vstd::prelude::*;

use crate::text::utf8_of;
use crate::vin::parser::{key_cuts_ok, vin_key, Error, VIN};
use crate::vin::pattern::{key_matches, match_pattern, string_views, to_sql_like};

verus! {

/// The first of the candidates that occurs in the pool.
pub open spec fn first_shared(candidates: Seq<i64>, pool: Seq<i64>) -> Option<i64>
    decreases candidates.len(),
{
    if candidates.len() == 0 {
        None
    } else if pool.contains(candidates[0]) {
        Some(candidates[0])
    } else {
        first_shared(candidates.drop_first(), pool)
    }
}

/// The first of the candidates that occurs in the pool
/// (see [`first_shared`]).
pub fn first_shared_id(candidates: &Vec<i64>, pool: &Vec<i64>) -> (res: Option<i64>)
    ensures
        res == first_shared(candidates@, pool@),
{
    let n = candidates.len();
    let mut i: usize = 0;
    assert(candidates@.skip(0) =~= candidates@);
    while i < n
        invariant
            n == candidates@.len(),
            i <= n,
            first_shared(candidates@, pool@) == first_shared(candidates@.skip(i as int), pool@),
        decreases n - i,
    {
        let c = candidates[i];
        let mut found = false;
        let mut j: usize = 0;
        while j < pool.len()
            invariant
                j <= pool@.len(),
                found == (exists|k: int| 0 <= k < j && pool@[k] == c),
            decreases pool@.len() - j,
        {
            if pool[j] == c {
                found = true;
            }
            j = j + 1;
        }
        proof {
            let rest = candidates@.skip(i as int);
            assert(rest[0] == c);
            assert(rest.drop_first() =~= candidates@.skip(i + 1));
            if found {
                let k = choose|k: int| 0 <= k < pool@.len() && pool@[k] == c;
                assert(pool@.contains(c));
            } else {
                assert(!pool@.contains(c));
            }
        }
        if found {
            return Some(c);
        }
        i = i + 1;
    }
    proof {
        assert(candidates@.skip(n as int) =~= Seq::<i64>::empty());
    }
    None
}

/// The schema ids of the pattern rows whose `Keys` the key matches, in
/// the order of the rows.
pub open spec fn matched_ids(key: Seq<char>, patterns: Seq<Seq<char>>, ids: Seq<i64>, n: int) -> Seq<i64>
    decreases n,
{
    if n <= 0 {
        Seq::empty()
    } else {
        let before = matched_ids(key, patterns, ids, n - 1);
        if key_matches(key, patterns[n - 1]) {
            before.push(ids[n - 1])
        } else {
            before
        }
    }
}

/// The schema ids of the pattern rows whose `Keys` the key matches (see
/// [`matched_ids`]); `patterns[i]` and `ids[i]` are the `Keys` and
/// `VinSchemaId` of row `i`.
pub fn matching_schema_ids(key: &str, patterns: &Vec<String>, ids: &Vec<i64>) -> (res: Vec<i64>)
    requires
        patterns@.len() == ids@.len(),
    ensures
        res@ == matched_ids(key@, string_views(patterns@), ids@, patterns@.len() as int),
{
    let n = patterns.len();
    let ghost views = string_views(patterns@);
    let mut out: Vec<i64> = Vec::new();
    let mut i: usize = 0;
    while i < n
        invariant
            n == patterns@.len(),
            n == ids@.len(),
            views == string_views(patterns@),
            i <= n,
            out@ == matched_ids(key@, views, ids@, i as int),
        decreases n - i,
    {
        let like = to_sql_like(patterns[i].as_str());
        if match_pattern(key, like.as_str()) {
            out.push(ids[i]);
        }
        i = i + 1;
    }
    out
}

/// The id that a schema choice gives: the first candidate in the pool, an
/// error when there is none (or when it is the id -1, which stands for
/// none).
pub open spec fn chosen_id(candidates: Seq<i64>, pool: Seq<i64>, err: Error) -> Result<i64, Error> {
    match first_shared(candidates, pool) {
        Some(id) => if id == -1 {
            Err(err)
        } else {
            Ok(id)
        },
        None => Err(err),
    }
}

impl VIN {
    /// The VIN schema: the first schema of the WMI, valid for the model
    /// year (`wmi_schema_ids`, in the order the `Wmi_VinSchema` rows come),
    /// that an engine-model pattern matching the VIN's key belongs to
    /// (`patterns[i]` and `pattern_schema_ids[i]` are the `Keys` and
    /// `VinSchemaId` of the `Pattern` rows of element 18); an error when
    /// there is none.
    pub fn vin_schema_id_from(
        &self,
        patterns: &Vec<String>,
        pattern_schema_ids: &Vec<i64>,
        wmi_schema_ids: &Vec<i64>,
    ) -> (res: Result<i64, Error>)
        requires
            patterns@.len() == pattern_schema_ids@.len(),
            key_cuts_ok(utf8_of(self.chars())),
        ensures
            res == chosen_id(
                wmi_schema_ids@,
                matched_ids(vin_key(self.chars()), string_views(patterns@), pattern_schema_ids@, patterns@.len() as int),
                Error::InvalidVinSchemaId,
            ),
    {
        let key = self.as_key();
        let matched = matching_schema_ids(key.as_str(), patterns, pattern_schema_ids);
        match first_shared_id(wmi_schema_ids, &matched) {
            Some(id) => if id == -1 {
                Err(Error::InvalidVinSchemaId)
            } else {
                Ok(id)
            },
            None => Err(Error::InvalidVinSchemaId),
        }
    }
}

/// The vehicle spec schema: the first of the model's spec schemas (in the
/// order the `VehicleSpecSchema_Model` rows come) that is one of the make's;
/// an error when there is none.
pub fn vspec_schema_id_from(make_schema_ids: &Vec<i64>, model_schema_ids: &Vec<i64>) -> (res: Result<
    i64,
    Error,
>)
    ensures
        res == chosen_id(model_schema_ids@, make_schema_ids@, Error::InvalidVSpecSchemaId),
{
    match first_shared_id(model_schema_ids, make_schema_ids) {
        Some(id) => if id == -1 {
            Err(Error::InvalidVSpecSchemaId)
        } else {
            Ok(id)
        },
        None => Err(Error::InvalidVSpecSchemaId),
    }
}

} // verus!
