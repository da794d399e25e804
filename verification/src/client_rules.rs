//! Decisions the client makes before talking to the gateway: whether a
//! voice request repeats the one already made, what is remembered after a
//! voice request, and how a member search query is normalized.
use vstd::prelude::*;

use crate::gateway::GatewayCommand;
use crate::ids::{ChannelMarker, GuildMarker, Id, UserMarker};
use crate::text::{decimal, digit_char, push_decimal, str_trim, string_push, trim_spec};
use crate::voice::{MicrophoneSensitivityDb, VoiceScope, VoiceVolumePercent};

verus! {

/// Characters a member search query needs at least.
pub const MEMBER_SEARCH_MIN_QUERY_CHARS: usize = 2;

/// Characters of a member search query that are sent at most.
pub const MEMBER_SEARCH_MAX_QUERY_CHARS: usize = 64;

/// Results a member search asks for at most.
pub const MEMBER_SEARCH_MAX_LIMIT: u16 = 10;

/// The voice connection the client asked for (or holds).
#[derive(Clone, Copy, Debug, Eq, PartialEq)]
pub struct CurrentVoiceConnectionState {
    pub scope: VoiceScope,
    pub channel_id: Id<ChannelMarker>,
    pub self_mute: bool,
    pub self_deaf: bool,
    pub allow_microphone_transmit: bool,
    pub microphone_sensitivity: MicrophoneSensitivityDb,
    pub microphone_volume: VoiceVolumePercent,
    pub voice_output_volume: VoiceVolumePercent,
}

/// A voice request repeats the last one when it joins the same channel in
/// the same scope with the same mute and deafen flags, or leaves when the
/// last request was in another scope or there was none.
pub open spec fn voice_request_duplicate_spec(
    requested: Option<CurrentVoiceConnectionState>,
    scope: VoiceScope,
    channel_id: Option<Id<ChannelMarker>>,
    self_mute: bool,
    self_deaf: bool,
) -> bool {
    match (requested, channel_id) {
        (Some(voice), Some(c)) => voice.scope == scope && voice.channel_id == c && voice.self_mute == self_mute
            && voice.self_deaf == self_deaf,
        (Some(voice), None) => voice.scope != scope,
        (None, None) => true,
        (None, Some(_)) => false,
    }
}

fn same_scope(a: VoiceScope, b: VoiceScope) -> (r: bool)
    ensures
        r == (a == b),
{
    match (a, b) {
        (VoiceScope::Guild(x), VoiceScope::Guild(y)) => {
            let same = x.get() == y.get();
            proof {
                if same {
                    Id::lemma_view_injective(x, y);
                }
            }
            same
        },
        (VoiceScope::Private(x), VoiceScope::Private(y)) => {
            let same = x.get() == y.get();
            proof {
                if same {
                    Id::lemma_view_injective(x, y);
                }
            }
            same
        },
        _ => false,
    }
}

fn same_channel(a: Id<ChannelMarker>, b: Id<ChannelMarker>) -> (r: bool)
    ensures
        r == (a == b),
{
    let same = a.get() == b.get();
    proof {
        if same {
            Id::lemma_view_injective(a, b);
        }
    }
    same
}

pub fn voice_state_request_is_duplicate(
    requested: Option<CurrentVoiceConnectionState>,
    scope: VoiceScope,
    channel_id: Option<Id<ChannelMarker>>,
    self_mute: bool,
    self_deaf: bool,
) -> (r: bool)
    ensures
        r == voice_request_duplicate_spec(requested, scope, channel_id, self_mute, self_deaf),
{
    match (requested, channel_id) {
        (Some(voice), Some(c)) => same_scope(voice.scope, scope) && same_channel(voice.channel_id, c)
            && voice.self_mute == self_mute && voice.self_deaf == self_deaf,
        (Some(voice), None) => !same_scope(voice.scope, scope),
        (None, None) => true,
        (None, Some(_)) => false,
    }
}

/// The request remembered after a voice update was sent: joining keeps the
/// microphone settings of an earlier request for the same channel (else the
/// defaults); leaving forgets a request in the same scope.
pub open spec fn requested_after_update_spec(
    requested: Option<CurrentVoiceConnectionState>,
    scope: VoiceScope,
    channel_id: Option<Id<ChannelMarker>>,
    self_mute: bool,
    self_deaf: bool,
) -> Option<CurrentVoiceConnectionState> {
    match channel_id {
        Some(c) => {
            let same = requested matches Some(v) && v.scope == scope && v.channel_id == c;
            Some(
                CurrentVoiceConnectionState {
                    scope,
                    channel_id: c,
                    self_mute,
                    self_deaf,
                    allow_microphone_transmit: same && requested->0.allow_microphone_transmit,
                    microphone_sensitivity: if same {
                        requested->0.microphone_sensitivity
                    } else {
                        MicrophoneSensitivityDb { db: -50i16 }
                    },
                    microphone_volume: if same {
                        requested->0.microphone_volume
                    } else {
                        VoiceVolumePercent { percent: 100u16 }
                    },
                    voice_output_volume: if same {
                        requested->0.voice_output_volume
                    } else {
                        VoiceVolumePercent { percent: 100u16 }
                    },
                },
            )
        },
        None => match requested {
            Some(v) => if v.scope == scope {
                None
            } else {
                requested
            },
            None => None,
        },
    }
}

pub fn requested_after_update(
    requested: Option<CurrentVoiceConnectionState>,
    scope: VoiceScope,
    channel_id: Option<Id<ChannelMarker>>,
    self_mute: bool,
    self_deaf: bool,
) -> (r: Option<CurrentVoiceConnectionState>)
    ensures
        r == requested_after_update_spec(requested, scope, channel_id, self_mute, self_deaf),
{
    match channel_id {
        Some(c) => {
            let same = match requested {
                Some(v) => same_scope(v.scope, scope) && same_channel(v.channel_id, c),
                None => false,
            };
            let (allow, sensitivity, volume, output) = match requested {
                Some(v) => if same {
                    (v.allow_microphone_transmit, v.microphone_sensitivity, v.microphone_volume, v.voice_output_volume)
                } else {
                    (false, MicrophoneSensitivityDb::default(), VoiceVolumePercent::default(), VoiceVolumePercent::default())
                },
                None => (false, MicrophoneSensitivityDb::default(), VoiceVolumePercent::default(), VoiceVolumePercent::default()),
            };
            Some(
                CurrentVoiceConnectionState {
                    scope,
                    channel_id: c,
                    self_mute,
                    self_deaf,
                    allow_microphone_transmit: allow,
                    microphone_sensitivity: sensitivity,
                    microphone_volume: volume,
                    voice_output_volume: output,
                },
            )
        },
        None => match requested {
            Some(v) => if same_scope(v.scope, scope) {
                None
            } else {
                requested
            },
            None => None,
        },
    }
}

/// The request after the microphone settings changed: only a request for
/// the same channel changes, and only when a setting differs (`None`: keep
/// the request as it is).
pub open spec fn capture_update_spec(
    requested: Option<CurrentVoiceConnectionState>,
    scope: VoiceScope,
    channel_id: Id<ChannelMarker>,
    allow_microphone_transmit: bool,
    microphone_sensitivity: MicrophoneSensitivityDb,
    microphone_volume: VoiceVolumePercent,
    voice_output_volume: VoiceVolumePercent,
) -> Option<CurrentVoiceConnectionState> {
    match requested {
        Some(v) => if v.scope != scope || v.channel_id != channel_id || (v.allow_microphone_transmit
            == allow_microphone_transmit && v.microphone_sensitivity == microphone_sensitivity && v.microphone_volume
            == microphone_volume && v.voice_output_volume == voice_output_volume) {
            None
        } else {
            Some(
                CurrentVoiceConnectionState {
                    allow_microphone_transmit,
                    microphone_sensitivity,
                    microphone_volume,
                    voice_output_volume,
                    ..v
                },
            )
        },
        None => None,
    }
}

pub fn voice_capture_update(
    requested: Option<CurrentVoiceConnectionState>,
    scope: VoiceScope,
    channel_id: Id<ChannelMarker>,
    allow_microphone_transmit: bool,
    microphone_sensitivity: MicrophoneSensitivityDb,
    microphone_volume: VoiceVolumePercent,
    voice_output_volume: VoiceVolumePercent,
) -> (r: Option<CurrentVoiceConnectionState>)
    ensures
        r == capture_update_spec(
            requested,
            scope,
            channel_id,
            allow_microphone_transmit,
            microphone_sensitivity,
            microphone_volume,
            voice_output_volume,
        ),
{
    let v = match requested {
        Some(v) => v,
        None => return None,
    };
    if !same_scope(v.scope, scope) || !same_channel(v.channel_id, channel_id) {
        return None;
    }
    if v.allow_microphone_transmit == allow_microphone_transmit && v.microphone_sensitivity.db == microphone_sensitivity.db
        && v.microphone_volume.percent == microphone_volume.percent && v.voice_output_volume.percent
        == voice_output_volume.percent {
        return None;
    }
    Some(
        CurrentVoiceConnectionState {
            allow_microphone_transmit,
            microphone_sensitivity,
            microphone_volume,
            voice_output_volume,
            ..v
        },
    )
}

/// Once a voice request was sent and remembered, sending the same request
/// again is recognised as a repeat.
pub proof fn lemma_voice_request_repeat_is_duplicate(
    requested: Option<CurrentVoiceConnectionState>,
    scope: VoiceScope,
    channel_id: Option<Id<ChannelMarker>>,
    self_mute: bool,
    self_deaf: bool,
)
    ensures
        voice_request_duplicate_spec(
            requested_after_update_spec(requested, scope, channel_id, self_mute, self_deaf),
            scope,
            channel_id,
            self_mute,
            self_deaf,
        ),
{
}

/// The lowercase mapping of a character, as std's `char::to_lowercase`
/// yields it.
pub uninterp spec fn lowercase_of(c: char) -> Seq<char>;

/// std's `char::to_lowercase`: the lowercase mapping of a character, one or
/// more characters.
#[verifier::external_body]
fn char_to_lowercase(c: char) -> (r: Vec<char>)
    ensures
        r@ == lowercase_of(c),
        r@.len() >= 1,
{
    c.to_lowercase().collect()
}

/// The characters of a string, each replaced by its lowercase mapping.
pub open spec fn lowercase_all(s: Seq<char>) -> Seq<char>
    decreases s.len(),
{
    if s.len() == 0 {
        Seq::empty()
    } else {
        lowercase_all(s.drop_last()) + lowercase_of(s.last())
    }
}

/// A member search query as sent: trimmed, lowercased and cut to 64
/// characters; `None` when fewer than 2 characters remain.
pub open spec fn normalize_member_query_spec(query: Seq<char>) -> Option<Seq<char>> {
    let full = lowercase_all(trim_spec(query));
    let cut = if full.len() > MEMBER_SEARCH_MAX_QUERY_CHARS {
        full.subrange(0, MEMBER_SEARCH_MAX_QUERY_CHARS as int)
    } else {
        full
    };
    if cut.len() >= MEMBER_SEARCH_MIN_QUERY_CHARS {
        Some(cut)
    } else {
        None
    }
}

proof fn lemma_lowercase_all_prefix(s: Seq<char>, i: int)
    requires
        0 <= i <= s.len(),
    ensures
        lowercase_all(s.subrange(0, i)).len() <= lowercase_all(s).len(),
        lowercase_all(s) == lowercase_all(s.subrange(0, i)) + lowercase_all(s.subrange(i, s.len() as int)),
    decreases s.len() - i,
{
    if i < s.len() {
        lemma_lowercase_all_prefix(s, i + 1);
        let a = s.subrange(0, i + 1);
        assert(a.drop_last() =~= s.subrange(0, i));
        let b = s.subrange(i, s.len() as int);
        let c = s.subrange(i + 1, s.len() as int);
        lemma_lowercase_all_cons(b);
        assert(b.drop_first() =~= c);
        assert(b[0] == s[i]);
        assert(lowercase_all(s) =~= lowercase_all(s.subrange(0, i)) + lowercase_all(b));
    } else {
        assert(s.subrange(0, i) =~= s);
        assert(s.subrange(i, s.len() as int) =~= Seq::<char>::empty());
        assert(lowercase_all(s) + Seq::<char>::empty() =~= lowercase_all(s));
    }
}

proof fn lemma_lowercase_all_cons(s: Seq<char>)
    requires
        s.len() > 0,
    ensures
        lowercase_all(s) == lowercase_of(s[0]) + lowercase_all(s.drop_first()),
    decreases s.len(),
{
    if s.len() == 1 {
        assert(s.drop_last() =~= Seq::<char>::empty());
        assert(s.drop_first() =~= Seq::<char>::empty());
        assert(lowercase_all(s.drop_last()) =~= Seq::<char>::empty());
        assert(lowercase_all(s) =~= lowercase_of(s[0]));
        assert(lowercase_of(s[0]) + Seq::<char>::empty() =~= lowercase_of(s[0]));
    } else {
        lemma_lowercase_all_cons(s.drop_last());
        assert(s.drop_last().drop_first() =~= s.drop_first().drop_last());
        assert(s.drop_first().last() == s.last());
        assert(lowercase_all(s) =~= lowercase_of(s[0]) + lowercase_all(s.drop_first()));
    }
}

/// Normalizes a member search query (see `normalize_member_query_spec`).
pub fn normalize_member_search_query(query: &str) -> (r: Option<String>)
    ensures
        match r {
            Some(q) => normalize_member_query_spec(query@) == Some(q@),
            None => normalize_member_query_spec(query@) is None,
        },
{
    let trimmed = str_trim(query);
    let ghost t = trimmed@;
    let ghost full = lowercase_all(t);
    let mut normalized = String::new();
    let mut count: usize = 0;
    let n = trimmed.unicode_len();
    let mut i: usize = 0;
    while i < n
        invariant
            n == t.len(),
            t == trimmed@,
            t == trim_spec(query@),
            full == lowercase_all(t),
            i <= n,
            count == normalized@.len(),
            count <= MEMBER_SEARCH_MAX_QUERY_CHARS,
            normalized@ == lowercase_all(t.subrange(0, i as int)),
        decreases n - i,
    {
        let c = trimmed.get_char(i);
        let lowered = char_to_lowercase(c);
        let ghost before = normalized@;
        proof {
            let a = t.subrange(0, i + 1);
            assert(a.drop_last() =~= t.subrange(0, i as int));
            assert(a.last() == c);
        }
        let m = lowered.len();
        let mut k: usize = 0;
        while k < m
            invariant
                m == lowered@.len(),
                k <= m,
                count == normalized@.len(),
                count <= MEMBER_SEARCH_MAX_QUERY_CHARS,
                normalized@ == before + lowered@.subrange(0, k as int),
                before == lowercase_all(t.subrange(0, i as int)),
                lowered@ == lowercase_of(c),
                full == lowercase_all(t),
                t == trim_spec(query@),
                i < n,
                n == t.len(),
                c == t[i as int],
            decreases m - k,
        {
            if count >= MEMBER_SEARCH_MAX_QUERY_CHARS {
                proof {
                    lemma_lowercase_all_prefix(t, i + 1);
                    let a = t.subrange(0, i + 1);
                    assert(a.drop_last() =~= t.subrange(0, i as int));
                    assert(a.last() == c);
                    let done = lowercase_all(a);
                    assert(done =~= before + lowered@);
                    assert(normalized@ =~= full.subrange(0, count as int));
                    assert(full.len() > MEMBER_SEARCH_MAX_QUERY_CHARS);
                }
                if normalized.unicode_len() >= MEMBER_SEARCH_MIN_QUERY_CHARS {
                    return Some(normalized);
                } else {
                    return None;
                }
            }
            string_push(&mut normalized, lowered[k]);
            count = count + 1;
            proof {
                assert(normalized@ =~= before + lowered@.subrange(0, k + 1));
            }
            k = k + 1;
        }
        proof {
            assert(lowered@.subrange(0, m as int) =~= lowered@);
        }
        i = i + 1;
    }
    proof {
        assert(t.subrange(0, n as int) =~= t);
    }
    if normalized.unicode_len() >= MEMBER_SEARCH_MIN_QUERY_CHARS {
        Some(normalized)
    } else {
        None
    }
}

/// How many members a search asks for: the requested number, at most 10.
pub fn member_search_limit(limit: u16) -> (r: u16)
    ensures
        r == if limit <= MEMBER_SEARCH_MAX_LIMIT {
            limit
        } else {
            MEMBER_SEARCH_MAX_LIMIT
        },
{
    if limit <= MEMBER_SEARCH_MAX_LIMIT {
        limit
    } else {
        MEMBER_SEARCH_MAX_LIMIT
    }
}

/// A lower-case hexadecimal digit.
pub open spec fn hex_lower(d: nat) -> char {
    if d < 10 {
        digit_char(d)
    } else if d == 10 {
        'a'
    } else if d == 11 {
        'b'
    } else if d == 12 {
        'c'
    } else if d == 13 {
        'd'
    } else if d == 14 {
        'e'
    } else {
        'f'
    }
}

/// The last `k` hexadecimal digits of `n`, most significant first.
pub open spec fn hex_digits(n: nat, k: nat) -> Seq<char>
    decreases k,
{
    if k == 0 {
        Seq::empty()
    } else {
        hex_digits(n / 16, (k - 1) as nat).push(hex_lower(n % 16))
    }
}

fn hex_digit_char(d: u64) -> (c: char)
    requires
        d < 16,
    ensures
        c == hex_lower(d as nat),
{
    if d < 10 {
        let c = (0x30u8 + (d as u8)) as char;
        proof {
            assert(c == digit_char(d as nat));
        }
        c
    } else if d == 10 {
        'a'
    } else if d == 11 {
        'b'
    } else if d == 12 {
        'c'
    } else if d == 13 {
        'd'
    } else if d == 14 {
        'e'
    } else {
        'f'
    }
}

fn push_hex_digits(out: &mut String, n: u64, k: u32)
    ensures
        final(out)@ == old(out)@ + hex_digits(n as nat, k as nat),
    decreases k,
{
    if k > 0 {
        push_hex_digits(out, n / 16, k - 1);
        string_push(out, hex_digit_char(n % 16));
        proof {
            assert(final(out)@ =~= old(out)@ + hex_digits(n as nat, k as nat));
        }
    } else {
        proof {
            assert(final(out)@ =~= old(out)@ + hex_digits(n as nat, k as nat));
        }
    }
}

/// The hash that a `std::collections::hash_map::DefaultHasher` made with
/// `new` gives a string.
pub uninterp spec fn default_hash_of(s: Seq<char>) -> u64;

/// Hashes a string with a `DefaultHasher::new()`, which every hasher made
/// with `new` repeats.
#[verifier::external_body]
fn query_hash(query: &str) -> (r: u64)
    ensures
        r == default_hash_of(query@),
{
    let mut hasher = std::collections::hash_map::DefaultHasher::new();
    std::hash::Hash::hash(query, &mut hasher);
    std::hash::Hasher::finish(&hasher)
}

/// The gateway request for all of a guild's members.
pub fn guild_members_request(guild_id: Id<GuildMarker>) -> (r: GatewayCommand)
    ensures
        r matches GatewayCommand::RequestGuildMembers { guild_id: g, query, limit, presences, nonce } && g == guild_id
            && query@.len() == 0 && limit == 0 && presences && nonce is None,
{
    GatewayCommand::RequestGuildMembers { guild_id, query: String::new(), limit: 0, presences: true, nonce: None }
}

/// The gateway request for some members of a guild by id; nothing to ask
/// for no ids.
pub fn guild_members_by_ids_request(guild_id: Id<GuildMarker>, user_ids: Vec<Id<UserMarker>>) -> (r: Option<
    GatewayCommand,
>)
    ensures
        user_ids@.len() == 0 ==> r is None,
        user_ids@.len() > 0 ==> (r matches Some(
            GatewayCommand::RequestGuildMembersByIds { guild_id: g, user_ids: ids, presences },
        ) && g == guild_id && ids@ == user_ids@ && !presences),
{
    if user_ids.len() == 0 {
        None
    } else {
        Some(GatewayCommand::RequestGuildMembersByIds { guild_id, user_ids, presences: false })
    }
}

/// The nonce of a member search: the guild and the query's hash, so that
/// results can be matched to their search without echoing the query.
pub open spec fn member_search_nonce(guild_id: u64, query: Seq<char>) -> Seq<char> {
    "mention-ac-"@ + decimal(guild_id as nat) + "-"@ + hex_digits(default_hash_of(query) as nat, 16)
}

/// The gateway request of a member search: the normalized query, the limit
/// capped, presences asked for, and a nonce; nothing when the query is too
/// short once normalized.
pub fn member_search_request(guild_id: Id<GuildMarker>, query: &str, limit: u16) -> (r: Option<GatewayCommand>)
    ensures
        match normalize_member_query_spec(query@) {
            None => r is None,
            Some(q) => r matches Some(
                GatewayCommand::RequestGuildMembers { guild_id: g, query: qq, limit: l, presences, nonce: Some(n) },
            ) && g == guild_id && qq@ == q && l == (if limit <= MEMBER_SEARCH_MAX_LIMIT {
                limit
            } else {
                MEMBER_SEARCH_MAX_LIMIT
            }) && presences && n@ == member_search_nonce(guild_id@, q),
        },
{
    let query = match normalize_member_search_query(query) {
        Some(q) => q,
        None => {
            return None;
        },
    };
    let limit = member_search_limit(limit);
    let mut nonce = "mention-ac-".to_owned();
    push_decimal(&mut nonce, guild_id.get());
    nonce.append("-");
    push_hex_digits(&mut nonce, query_hash(query.as_str()), 16);
    proof {
        reveal_strlit("mention-ac-");
        reveal_strlit("-");
    }
    Some(GatewayCommand::RequestGuildMembers { guild_id, query, limit, presences: true, nonce: Some(nonce) })
}

} // verus!
