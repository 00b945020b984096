//! What holds of reading a reply, over all replies.
use vstd::prelude::*;

use crate::client::{body_outcome, reply_outcome, Reply};
use crate::error::ErrorModel;
use crate::json::{json_of_text, member_of, Json};
use crate::model::{
    condition_of, condition_tree, current_keys, current_of, current_tree, location_keys,
    location_of, location_tree, response_of, response_tree, ConditionModel, CurrentModel,
    LocationModel, ResponseModel,
};

verus! {

proof fn lemma_condition_round_trip(c: ConditionModel)
    ensures
        condition_of(condition_tree(c)) == Some(c),
{
    reveal_strlit("text");
    reveal_strlit("icon");
    assert("text"@.len() == 4);
    assert("icon"@.len() == 4);
    assert("text"@[0] != "icon"@[0]);
}

proof fn lemma_location_round_trip(l: LocationModel)
    ensures
        location_of(location_tree(l)) == Some(l),
{
    reveal_strlit("name");
    reveal_strlit("region");
    reveal_strlit("country");
    reveal_strlit("lat");
    reveal_strlit("lon");
    assert("name"@.len() == 4);
    assert("region"@.len() == 6);
    assert("country"@.len() == 7);
    assert("lat"@.len() == 3);
    assert("lon"@.len() == 3);
    assert("lat"@[1] != "lon"@[1]);
}

proof fn lemma_current_round_trip(c: CurrentModel)
    ensures
        current_of(current_tree(c)) == Some(c),
{
    reveal_strlit("temp_c");
    reveal_strlit("temp_f");
    reveal_strlit("feelslike_c");
    reveal_strlit("feelslike_f");
    reveal_strlit("wind_mph");
    reveal_strlit("wind_kph");
    reveal_strlit("wind_degree");
    reveal_strlit("wind_dir");
    reveal_strlit("condition");
    reveal_strlit("pressure_mb");
    reveal_strlit("pressure_in");
    // Keys of different lengths differ; keys of one length differ at one character.
    assert("temp_c"@.len() == 6);
    assert("temp_f"@.len() == 6);
    assert("feelslike_c"@.len() == 11);
    assert("feelslike_f"@.len() == 11);
    assert("wind_mph"@.len() == 8);
    assert("wind_kph"@.len() == 8);
    assert("wind_degree"@.len() == 11);
    assert("wind_dir"@.len() == 8);
    assert("condition"@.len() == 9);
    assert("pressure_mb"@.len() == 11);
    assert("pressure_in"@.len() == 11);
    assert("temp_c"@[5] != "temp_f"@[5]);
    assert("feelslike_c"@[10] != "feelslike_f"@[10]);
    assert("feelslike_c"@[0] != "wind_degree"@[0]);
    assert("feelslike_c"@[0] != "pressure_mb"@[0]);
    assert("feelslike_c"@[0] != "pressure_in"@[0]);
    assert("feelslike_f"@[0] != "wind_degree"@[0]);
    assert("feelslike_f"@[0] != "pressure_mb"@[0]);
    assert("feelslike_f"@[0] != "pressure_in"@[0]);
    assert("wind_mph"@[5] != "wind_kph"@[5]);
    assert("wind_mph"@[5] != "wind_dir"@[5]);
    assert("wind_kph"@[5] != "wind_dir"@[5]);
    assert("wind_degree"@[0] != "pressure_mb"@[0]);
    assert("wind_degree"@[0] != "pressure_in"@[0]);
    assert("pressure_mb"@[9] != "pressure_in"@[9]);
    lemma_condition_round_trip(c.condition);
}

/// Reading a document written from a reply gives back that reply, field for
/// field.
pub proof fn lemma_response_tree_round_trip(m: ResponseModel)
    ensures
        response_of(response_tree(m)) == Some(m),
{
    reveal_strlit("location");
    reveal_strlit("current");
    assert("location"@.len() == 8);
    assert("current"@.len() == 7);
    lemma_location_round_trip(m.location);
    lemma_current_round_trip(m.current);
}

/// A 200 response whose body is a document written from a reply yields that
/// reply, field for field.
pub proof fn lemma_success_round_trip(m: ResponseModel, body: Seq<char>)
    requires
        json_of_text(body) == Some(response_tree(m)),
    ensures
        body_outcome(200, body) == Ok::<ResponseModel, ErrorModel>(m),
{
    lemma_response_tree_round_trip(m);
}

/// A 200 response whose document lacks `location` or `current` fails to parse:
/// no reply is made of part of the data.
pub proof fn lemma_missing_part_fails(body: Seq<char>, t: Json)
    requires
        json_of_text(body) == Some(t),
        member_of(t, "location"@) is None || member_of(t, "current"@) is None,
    ensures
        body_outcome(200, body) == Err::<ResponseModel, ErrorModel>(ErrorModel::DataParseFailed),
{
}

/// A 200 response whose current weather lacks one of its members fails to
/// parse.
pub proof fn lemma_missing_current_member_fails(body: Seq<char>, t: Json, c: Json, key: Seq<char>)
    requires
        json_of_text(body) == Some(t),
        member_of(t, "current"@) == Some(c),
        current_keys().contains(key),
        member_of(c, key) is None,
    ensures
        body_outcome(200, body) == Err::<ResponseModel, ErrorModel>(ErrorModel::DataParseFailed),
{
    assert(current_of(c) is None);
}

/// A 200 response whose location lacks one of its members fails to parse.
pub proof fn lemma_missing_location_member_fails(body: Seq<char>, t: Json, l: Json, key: Seq<char>)
    requires
        json_of_text(body) == Some(t),
        member_of(t, "location"@) == Some(l),
        location_keys().contains(key),
        member_of(l, key) is None,
    ensures
        body_outcome(200, body) == Err::<ResponseModel, ErrorModel>(ErrorModel::DataParseFailed),
{
    assert(location_of(l) is None);
}

/// When the transport fails, the request fails with the transport's own text
/// and no reply is made.
pub proof fn lemma_transport_failure(text: String)
    ensures
        reply_outcome(Reply::TransportFailed(text)) == Err::<ResponseModel, ErrorModel>(
            ErrorModel::RequestFailed(text@),
        ),
{
}

} // verus!
