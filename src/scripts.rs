//! The server-side scripts. Each runs as one atomic unit on the server.
//!
//! `KEYS[1]` is the queue's message index and `KEYS[2]` its hash. The
//! receive and pop scripts take `ARGV[1]` = now in milliseconds and (receive
//! only) `ARGV[2]` = the new visible-at time; they reply `{}` when nothing
//! is visible, else `{id, payload, rc, fr}` (payload nil when it is gone).
//! The change-visibility script takes `ARGV[1]` = id and `ARGV[2]` = the new
//! visible-at time, and replies 1 when the id was in the index, else 0.
use vstd::prelude::*;

verus! {

pub const RECEIVE_SCRIPT: &'static str = "local msg = redis.call('ZRANGEBYSCORE', KEYS[1], '-inf', ARGV[1], 'LIMIT', '0', '1')
if #msg == 0 then
    return {}
end
redis.call('ZADD', KEYS[1], ARGV[2], msg[1])
local rc = redis.call('HINCRBY', KEYS[2], msg[1] .. ':rc', 1)
local body = redis.call('HGET', KEYS[2], msg[1])
local fr
if rc == 1 then
    redis.call('HSET', KEYS[2], msg[1] .. ':fr', ARGV[1])
    fr = tonumber(ARGV[1])
else
    fr = tonumber(redis.call('HGET', KEYS[2], msg[1] .. ':fr'))
end
redis.call('HINCRBY', KEYS[2], 'totalrecv', 1)
return {msg[1], body, rc, fr}
";

pub const POP_SCRIPT: &'static str = "local msg = redis.call('ZRANGEBYSCORE', KEYS[1], '-inf', ARGV[1], 'LIMIT', '0', '1')
if #msg == 0 then
    return {}
end
local rc = redis.call('HINCRBY', KEYS[2], msg[1] .. ':rc', 1)
local body = redis.call('HGET', KEYS[2], msg[1])
local fr
if rc == 1 then
    fr = tonumber(ARGV[1])
else
    fr = tonumber(redis.call('HGET', KEYS[2], msg[1] .. ':fr'))
end
redis.call('HINCRBY', KEYS[2], 'totalrecv', 1)
redis.call('ZREM', KEYS[1], msg[1])
redis.call('HDEL', KEYS[2], msg[1], msg[1] .. ':rc', msg[1] .. ':fr')
return {msg[1], body, rc, fr}
";

pub const CHANGE_VISIBILITY_SCRIPT: &'static str = "local score = redis.call('ZSCORE', KEYS[1], ARGV[1])
if not score then
    return 0
end
redis.call('ZADD', KEYS[1], ARGV[2], ARGV[1])
return 1
";

} // verus!
