//! What a client can read from a response.

use crate::json::{
    hex_digit, json_escaped, json_escaped_char, json_string, response_json,
};
use crate::protocol::ResponseView;
use vstd::prelude::*;

verus! {

/// No escaped character starts like another one, or like a closing quote.
proof fn lemma_escape_is_code(a: char, b: char, x: Seq<char>, y: Seq<char>)
    requires
        json_escaped_char(a) + x == json_escaped_char(b) + y,
    ensures
        a == b,
        x == y,
{
    let ea = json_escaped_char(a);
    let eb = json_escaped_char(b);
    let both = ea + x;
    assert(both[0] == ea[0] && both[0] == eb[0]);
    if ea.len() > 1 {
        assert(both[1] == ea[1]);
    }
    if eb.len() > 1 {
        assert(both[1] == eb[1]);
    }
    if ea.len() == 6 {
        assert(both[4] == ea[4] && both[5] == ea[5]);
    }
    if eb.len() == 6 {
        assert(both[4] == eb[4] && both[5] == eb[5]);
    }
    if ea.len() == 6 && eb.len() == 6 {
        assert(hex_digit(a as int / 16) == hex_digit(b as int / 16));
        assert(hex_digit(a as int % 16) == hex_digit(b as int % 16));
    }
    assert(a == b);
    assert(x =~= both.subrange(ea.len() as int, both.len() as int));
    assert(y =~= (eb + y).subrange(eb.len() as int, both.len() as int));
}

/// Where a JSON string ends is plain from its start, and so is its text.
proof fn lemma_escaped_is_code(a: Seq<char>, b: Seq<char>, x: Seq<char>, y: Seq<char>)
    requires
        json_escaped(a) + (seq!['"'] + x) == json_escaped(b) + (seq!['"'] + y),
    ensures
        a == b,
        x == y,
    decreases a.len(),
{
    let left = json_escaped(a) + (seq!['"'] + x);
    let right = json_escaped(b) + (seq!['"'] + y);
    if a.len() == 0 && b.len() == 0 {
        assert(x =~= left.drop_first());
        assert(y =~= right.drop_first());
        assert(a =~= b);
    } else if a.len() == 0 {
        assert(left[0] == '"');
        assert(right[0] == json_escaped_char(b.first())[0]);
    } else if b.len() == 0 {
        assert(right[0] == '"');
        assert(left[0] == json_escaped_char(a.first())[0]);
    } else {
        let la = json_escaped(a.drop_first()) + (seq!['"'] + x);
        let lb = json_escaped(b.drop_first()) + (seq!['"'] + y);
        assert(left =~= json_escaped_char(a.first()) + la);
        assert(right =~= json_escaped_char(b.first()) + lb);
        lemma_escape_is_code(a.first(), b.first(), la, lb);
        lemma_escaped_is_code(a.drop_first(), b.drop_first(), x, y);
        assert(a =~= seq![a.first()] + a.drop_first());
        assert(b =~= seq![b.first()] + b.drop_first());
    }
}

proof fn lemma_string_is_code(a: Seq<char>, b: Seq<char>, x: Seq<char>, y: Seq<char>)
    requires
        json_string(a) + x == json_string(b) + y,
    ensures
        a == b,
        x == y,
{
    let left = json_string(a) + x;
    let right = json_string(b) + y;
    assert(left.drop_first() =~= json_escaped(a) + (seq!['"'] + x));
    assert(right.drop_first() =~= json_escaped(b) + (seq!['"'] + y));
    lemma_escaped_is_code(a, b, x, y);
}

/// Dropping a common beginning.
proof fn lemma_common_prefix(p: Seq<char>, x: Seq<char>, y: Seq<char>)
    requires
        p + x == p + y,
    ensures
        x == y,
{
    assert(x =~= (p + x).subrange(p.len() as int, (p + x).len() as int));
    assert(y =~= (p + y).subrange(p.len() as int, (p + y).len() as int));
}

/// What follows the message of a response.
spec fn rest_of(response: ResponseView) -> Seq<char> {
    (match response.task_id {
        Some(id) => ",\"task_id\":"@ + json_string(id),
        None => seq![],
    }) + "}"@
}

/// The text that is sent for a response tells all of it: two responses with
/// the same text have the same status and message, and the same task
/// identifier or none.
pub proof fn law_response_can_be_read_back(a: ResponseView, b: ResponseView)
    requires
        response_json(a) == response_json(b),
    ensures
        a == b,
{
    let ra = rest_of(a);
    let rb = rest_of(b);
    let ma = ",\"message\":"@ + (json_string(a.message) + ra);
    let mb = ",\"message\":"@ + (json_string(b.message) + rb);
    assert(response_json(a) =~= "{\"status\":"@ + (json_string(a.status) + ma));
    assert(response_json(b) =~= "{\"status\":"@ + (json_string(b.status) + mb));
    lemma_common_prefix(
        "{\"status\":"@,
        json_string(a.status) + ma,
        json_string(b.status) + mb,
    );
    lemma_string_is_code(a.status, b.status, ma, mb);
    lemma_common_prefix(
        ",\"message\":"@,
        json_string(a.message) + ra,
        json_string(b.message) + rb,
    );
    lemma_string_is_code(a.message, b.message, ra, rb);
    reveal_strlit(",\"task_id\":");
    reveal_strlit("}");
    match (a.task_id, b.task_id) {
        (Some(i), Some(j)) => {
            assert(ra =~= ",\"task_id\":"@ + (json_string(i) + "}"@));
            assert(rb =~= ",\"task_id\":"@ + (json_string(j) + "}"@));
            lemma_common_prefix(",\"task_id\":"@, json_string(i) + "}"@, json_string(j) + "}"@);
            lemma_string_is_code(i, j, "}"@, "}"@);
        },
        (Some(i), None) => {
            assert(ra[0] == ',');
            assert(rb[0] == '}');
        },
        (None, Some(j)) => {
            assert(ra[0] == '}');
            assert(rb[0] == ',');
        },
        (None, None) => {},
    }
}

} // verus!
