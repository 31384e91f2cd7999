use vstd::prelude::*;
use crate::status::{Status, StatusView};

verus! {

/// The error the Redis client reports for a failed command.
#[verifier::external_type_specification]
#[verifier::external_body]
pub struct ExRedisError(redis::RedisError);

/// The outcome of storing one status in Redis.
pub struct RedisResultMsg {
    pub result: Result<(), redis::RedisError>,
}

/// The Redis key under which the last status of a check is stored:
/// `statuses:<account id>:<check name>`.
pub open spec fn status_key(status: StatusView) -> Seq<char> {
    "statuses:"@ + status.account_id + ":"@ + status.name
}

/// `s` cut at every `:`, as `str::split(':')` cuts it: the pieces between
/// separators, in order, empty ones included.
pub open spec fn split_at_colons(s: Seq<char>) -> Seq<Seq<char>>
    decreases s.len(),
{
    if s.len() == 0 {
        seq![Seq::<char>::empty()]
    } else {
        let pieces = split_at_colons(s.drop_last());
        if s.last() == ':' {
            pieces.push(Seq::<char>::empty())
        } else {
            pieces.update(pieces.len() - 1, pieces.last().push(s.last()))
        }
    }
}

/// `s` holds no `:`.
pub open spec fn colon_free(s: Seq<char>) -> bool {
    forall|i: int| 0 <= i < s.len() ==> s[i] != ':'
}

proof fn lemma_split_never_empty(s: Seq<char>)
    ensures
        split_at_colons(s).len() >= 1,
    decreases s.len(),
{
    if s.len() > 0 {
        lemma_split_never_empty(s.drop_last());
    }
}

/// Appending colon-free text extends the last piece.
proof fn lemma_split_append_colon_free(prefix: Seq<char>, text: Seq<char>)
    requires
        colon_free(text),
    ensures
        split_at_colons(prefix + text) == split_at_colons(prefix).update(
            split_at_colons(prefix).len() - 1,
            split_at_colons(prefix).last() + text,
        ),
    decreases text.len(),
{
    lemma_split_never_empty(prefix);
    if text.len() == 0 {
        assert(prefix + text =~= prefix);
        assert(split_at_colons(prefix).last() + text =~= split_at_colons(prefix).last());
        assert(split_at_colons(prefix).update(
            split_at_colons(prefix).len() - 1,
            split_at_colons(prefix).last() + text,
        ) =~= split_at_colons(prefix));
    } else {
        let shorter = text.drop_last();
        assert(colon_free(shorter));
        lemma_split_append_colon_free(prefix, shorter);
        let whole = prefix + text;
        assert(whole.drop_last() =~= prefix + shorter);
        assert(whole.last() == text.last());
        assert(text.last() != ':');
        lemma_split_never_empty(prefix + shorter);
        let before = split_at_colons(prefix);
        assert(before.last() + shorter + seq![text.last()] =~= before.last() + text);
        assert((before.last() + shorter).push(text.last()) =~= before.last() + text);
        assert(split_at_colons(whole) =~= before.update(before.len() - 1, before.last() + text));
    }
}

/// Appending a `:` starts a new, empty piece.
proof fn lemma_split_append_colon(prefix: Seq<char>)
    ensures
        split_at_colons(prefix + ":"@) == split_at_colons(prefix).push(Seq::<char>::empty()),
{
    reveal_strlit(":");
    let whole = prefix + ":"@;
    assert(whole.drop_last() =~= prefix);
    assert(whole.last() == ':');
}

/// When neither the account id nor the check name holds a `:`, the Redis key
/// of a status splits at its colons into exactly `statuses`, the account id
/// and the check name.
pub proof fn law_status_key_splits_into_its_parts(status: StatusView)
    requires
        colon_free(status.account_id),
        colon_free(status.name),
    ensures
        split_at_colons(status_key(status)) == seq!["statuses"@, status.account_id, status.name],
{
    reveal_strlit("statuses:");
    reveal_strlit("statuses");
    let head = "statuses"@;
    assert("statuses:"@ =~= head + ":"@) by {
        reveal_strlit(":");
    }
    assert(colon_free(head));
    lemma_split_append_colon_free(Seq::<char>::empty(), head);
    assert(Seq::<char>::empty() + head =~= head);
    assert(split_at_colons(Seq::<char>::empty()) == seq![Seq::<char>::empty()]);
    assert(Seq::<char>::empty() + head =~= head);
    assert(split_at_colons(head) =~= seq![head]);
    lemma_split_append_colon(head);
    let p1 = head + ":"@;
    lemma_split_append_colon_free(p1, status.account_id);
    assert(Seq::<char>::empty() + status.account_id =~= status.account_id);
    let p2 = p1 + status.account_id;
    assert(split_at_colons(p2) =~= seq![head, status.account_id]);
    lemma_split_append_colon(p2);
    let p3 = p2 + ":"@;
    lemma_split_append_colon_free(p3, status.name);
    assert(Seq::<char>::empty() + status.name =~= status.name);
    assert(split_at_colons(p3 + status.name) =~= seq![head, status.account_id, status.name]);
    assert(status_key(status) =~= p3 + status.name);
}

/// The arguments of the Redis command that stores `payload` under the key of
/// `status`.
pub open spec fn set_command_args(status: StatusView, payload: Seq<char>) -> Seq<Seq<char>> {
    seq!["SET"@, status_key(status), payload]
}

/// The key of a status is `statuses:`, then the account id unchanged, then
/// `:`, then the check name unchanged, whatever they hold.
pub proof fn law_status_key_parts(status: StatusView)
    ensures
        status_key(status).len() == 10 + (status.account_id.len() as int) + (status.name.len() as int),
        status_key(status).subrange(0, 9) == "statuses:"@,
        status_key(status).subrange(9, 9 + (status.account_id.len() as int)) == status.account_id,
        status_key(status)[9 + (status.account_id.len() as int)] == ':',
        status_key(status).subrange(
            10 + (status.account_id.len() as int),
            status_key(status).len() as int,
        ) == status.name,
{
    reveal_strlit("statuses:");
    reveal_strlit(":");
    let key = status_key(status);
    let a = status.account_id.len() as int;
    assert(key.subrange(0, 9) =~= "statuses:"@);
    assert(key.subrange(9, 9 + a) =~= status.account_id);
    assert(key.subrange(10 + a, key.len() as int) =~= status.name);
}

/// The command that stores a status has exactly three arguments: `SET`, the
/// key of the status, and the payload unchanged.
pub proof fn law_set_command_stores_payload_unchanged(status: StatusView, payload: Seq<char>)
    ensures
        set_command_args(status, payload).len() == 3,
        set_command_args(status, payload)[0] == "SET"@,
        set_command_args(status, payload)[1] == status_key(status),
        set_command_args(status, payload)[2] == payload,
{
}

/// Stores each status it receives in Redis at `uri` and reports the outcome
/// to the `R`.
pub struct RedisClient<R> {
    uri: String,
    result_recipient: R,
}

impl<R> RedisClient<R> {
    pub closed spec fn spec_uri(&self) -> Seq<char> {
        self.uri@
    }

    pub closed spec fn spec_result_recipient(&self) -> R {
        self.result_recipient
    }

    pub fn new(uri: &str, result_recipient: R) -> (client: Self)
        ensures
            client.spec_uri() == uri@,
            client.spec_result_recipient() == result_recipient,
    {
        Self { uri: uri.to_owned(), result_recipient }
    }

    /// The address of the Redis server.
    pub fn uri(&self) -> (r: &String)
        ensures
            r@ == self.spec_uri(),
    {
        &self.uri
    }

    /// The one who receives the outcome of every command.
    pub fn result_recipient(&self) -> (r: &R)
        ensures
            *r == self.spec_result_recipient(),
    {
        &self.result_recipient
    }

    /// The Redis key of a status.
    pub fn status_key(status: &Status) -> (key: String)
        ensures
            key@ == status_key(status@),
    {
        let mut key = String::from_str("statuses:");
        key.append(status.account_id.as_str());
        key.append(":");
        key.append(status.name.as_str());
        key
    }

    /// The command that stores `status`, serialised as `payload`, as the last
    /// status of its check: `SET statuses:<account id>:<name> <payload>`.
    pub fn handle(&self, status: &Status, payload: String) -> (args: Vec<String>)
        ensures
            args@.map_values(|a: String| a@) == set_command_args(status@, payload@),
            args.len() == 3,
            args@[0]@ == "SET"@,
            args@[1]@ == status_key(status@),
            args@[2]@ == payload@,
    {
        let mut args: Vec<String> = Vec::new();
        args.push(String::from_str("SET"));
        args.push(Self::status_key(status));
        args.push(payload);
        assert(args@.map_values(|a: String| a@) =~= set_command_args(status@, payload@));
        args
    }
}

} // verus!
