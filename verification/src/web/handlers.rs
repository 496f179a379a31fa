//! Request-independent decisions of the dashboard's handlers, and the forms
//! they receive.

use vstd::prelude::*;
use crate::text::{is_prefix, split_on, split_char, strip_prefix, trim, trim_str, spec_lowercase, lowercase, str_eq, lemma_split_on_without_sep, lemma_trim_unchanged};
use crate::codec::{is_b64_char, AES_GCM_P_MAX};
use crate::web::cookies::{CookieError, SessionCookie, key_from_hex, opened_cookie, is_b64_text, sealed_cookie};

verus! {

/// Text of a manual post.
pub struct PostForm {
    pub text: String,
}

/// Dashboard sign-in.
pub struct LoginForm {
    pub handle: String,
    pub password: String,
}

/// A chat message, optionally continuing a thread.
pub struct ChatMessageForm {
    pub text: String,
    pub thread_uri: Option<String>,
}

/// Conversation search with optional filters.
pub struct SearchForm {
    pub query: String,
    pub author: Option<String>,
    pub role: Option<String>,
    pub date_from: Option<String>,
    pub date_to: Option<String>,
}

/// Threads to delete.
pub struct BulkDeleteForm {
    pub thread_uris: Vec<String>,
}

/// Age, in days, beyond which conversations are removed.
pub struct CleanupForm {
    pub days: i64,
}

/// An author to mute.
pub struct MuteAuthorForm {
    pub did: String,
}

/// A named set of thread filters.
pub struct FilterPresetForm {
    pub name: String,
    pub filters_json: String,
}

/// A thread whose context to clear.
pub struct ClearThreadForm {
    pub root_uri: String,
}

/// The cookie prefix that introduces the session cookie's value.
pub open spec fn session_cookie_prefix() -> Seq<char> {
    "thunderbot_session="@
}

/// The session cookie's value in one `;`-separated piece of a `Cookie`
/// header, when the piece (trimmed) sets it to something non-empty.
pub open spec fn session_value_of(piece: Seq<char>) -> Option<Seq<char>> {
    let t = trim(piece);
    if is_prefix(session_cookie_prefix(), t) && t.len() > session_cookie_prefix().len() {
        Some(t.skip(session_cookie_prefix().len() as int))
    } else {
        None
    }
}

/// The first session cookie value among the pieces.
pub open spec fn first_session_value(pieces: Seq<Seq<char>>) -> Option<Seq<char>>
    decreases pieces.len(),
{
    if pieces.len() == 0 {
        None
    } else if session_value_of(pieces[0]) is Some {
        session_value_of(pieces[0])
    } else {
        first_session_value(pieces.drop_first())
    }
}

/// The session cookie's value in a `Cookie` header, if it sets one.
pub fn find_session_cookie(cookie_header: &str) -> (r: Option<String>)
    ensures
        r is Some <==> first_session_value(split_on(cookie_header@, ';')) is Some,
        r matches Some(v) ==> first_session_value(split_on(cookie_header@, ';')) == Some(v@),
{
    let pieces = split_char(cookie_header, ';');
    let ghost all = split_on(cookie_header@, ';');
    let mut i: usize = 0;
    proof {
        assert(all.skip(0) =~= all);
    }
    while i < pieces.len()
        invariant
            all == split_on(cookie_header@, ';'),
            pieces@.len() == all.len(),
            forall|k: int| 0 <= k < pieces@.len() ==> #[trigger] pieces@[k]@ == all[k],
            i <= pieces@.len(),
            first_session_value(all) == first_session_value(all.skip(i as int)),
        decreases pieces@.len() - i,
    {
        let t = trim_str(pieces[i].as_str());
        proof {
            assert(pieces@[i as int]@ == all[i as int]);
            assert(all.skip(i as int)[0] == all[i as int]);
            assert(all.skip(i as int).drop_first() =~= all.skip(i + 1));
        }
        match strip_prefix(t.as_str(), "thunderbot_session=") {
            Some(v) => {
                if v.as_str().unicode_len() > 0 {
                    proof {
                        assert(t@ == trim(all[i as int]));
                        assert(session_value_of(all[i as int]) == Some(v@));
                        assert(first_session_value(all.skip(i as int)) == Some(v@));
                    }
                    return Some(v);
                }
            },
            None => {},
        }
        i = i + 1;
    }
    None
}

/// A `Cookie` header that carries only the session cookie with value `v`,
/// a sealed cookie in base64, reads back as `v`.
pub proof fn lemma_session_header_reads_back(v: Seq<char>)
    requires
        is_b64_text(v),
    ensures
        first_session_value(split_on(session_cookie_prefix() + v, ';')) == Some(v),
{
    reveal_strlit("thunderbot_session=");
    let piece = session_cookie_prefix() + v;
    assert forall|i: int| 0 <= i < piece.len() implies piece[i] != ';' by {
        if i >= session_cookie_prefix().len() {
            assert(piece[i] == v[i - session_cookie_prefix().len()]);
            assert(is_b64_char(v[i - session_cookie_prefix().len()]));
        }
    }
    lemma_split_on_without_sep(piece, ';');
    assert(piece.last() == v.last());
    assert(is_b64_char(v[v.len() - 1]));
    lemma_trim_unchanged(piece);
    assert(piece.subrange(0, session_cookie_prefix().len() as int) =~= session_cookie_prefix());
    assert(piece.skip(session_cookie_prefix().len() as int) =~= v);
    assert(seq![piece].drop_first() =~= Seq::<Seq<char>>::empty());
}

/// What looking up the session in a request gives: nothing without a
/// session cookie; otherwise the key must be configured and valid, and the
/// cookie must open under it.
pub open spec fn session_lookup(
    cookie_header: Option<Seq<char>>,
    key_hex: Option<Seq<char>>,
) -> Result<Option<Seq<u8>>, CookieError> {
    match cookie_header {
        None => Ok(None),
        Some(h) => match first_session_value(split_on(h, ';')) {
            None => Ok(None),
            Some(v) => match key_hex {
                None => Err(CookieError::MissingKey),
                Some(kh) => match key_from_hex(kh) {
                    Err(e) => Err(e),
                    Ok(k) => match opened_cookie(k, v) {
                        Err(e) => Err(e),
                        Ok(p) => Ok(Some(p)),
                    },
                },
            },
        },
    }
}

/// The session plaintext carried by the request's `Cookie` header, if any,
/// opened under the key configured as `key_hex`.
pub fn get_session_from_cookies(cookie_header: Option<&str>, key_hex: Option<&str>) -> (r: Result<Option<Vec<u8>>, CookieError>)
    ensures
        ({
            let expected = session_lookup(
                match cookie_header { Some(h) => Some(h@), None => None },
                match key_hex { Some(k) => Some(k@), None => None },
            );
            &&& r is Ok <==> expected is Ok
            &&& r matches Ok(o) ==> expected == Ok::<Option<Seq<u8>>, CookieError>(
                match o { Some(p) => Some(p@), None => None })
            &&& r matches Err(e) ==> expected == Err::<Option<Seq<u8>>, CookieError>(e)
        }),
        forall|nonce: Seq<u8>, p: Seq<u8>|
            key_hex is Some && key_from_hex(key_hex->Some_0@) is Ok && cookie_header is Some
                && nonce.len() == 12 && p.len() <= AES_GCM_P_MAX
                && is_b64_text(sealed_cookie(key_from_hex(key_hex->Some_0@)->Ok_0, nonce, p))
                && cookie_header->Some_0@ == session_cookie_prefix()
                    + #[trigger] sealed_cookie(key_from_hex(key_hex->Some_0@)->Ok_0, nonce, p)
                ==> (r matches Ok(Some(q)) && q@ == p),
{
    let header = match cookie_header {
        None => {
            return Ok(None);
        },
        Some(h) => h,
    };
    let value = match find_session_cookie(header) {
        None => {
            proof {
                assert forall|nonce: Seq<u8>, p: Seq<u8>|
                    key_hex is Some && key_from_hex(key_hex->Some_0@) is Ok
                        && is_b64_text(sealed_cookie(key_from_hex(key_hex->Some_0@)->Ok_0, nonce, p))
                        && header@ == session_cookie_prefix()
                            + #[trigger] sealed_cookie(key_from_hex(key_hex->Some_0@)->Ok_0, nonce, p)
                    implies false by {
                    lemma_session_header_reads_back(sealed_cookie(key_from_hex(key_hex->Some_0@)->Ok_0, nonce, p));
                }
            }
            return Ok(None);
        },
        Some(v) => v,
    };
    let hex = match key_hex {
        None => {
            return Err(CookieError::MissingKey);
        },
        Some(k) => k,
    };
    let mgr = match SessionCookie::new(hex) {
        Err(e) => {
            return Err(e);
        },
        Ok(m) => m,
    };
    proof {
        assert forall|nonce: Seq<u8>, p: Seq<u8>|
            is_b64_text(sealed_cookie(mgr.key(), nonce, p))
                && header@ == session_cookie_prefix() + #[trigger] sealed_cookie(mgr.key(), nonce, p)
            implies value@ == sealed_cookie(mgr.key(), nonce, p) by {
            lemma_session_header_reads_back(sealed_cookie(mgr.key(), nonce, p));
        }
    }
    match mgr.decrypt_session(value.as_str()) {
        Err(e) => Err(e),
        Ok(p) => Ok(Some(p)),
    }
}

/// Why a handle may not sign in.
#[derive(Clone, Copy, Debug, PartialEq, Eq)]
pub enum HandleError {
    /// No allowed handles are configured.
    NotConfigured,
    /// The handle is not among the allowed ones.
    NotAllowed,
}

/// The allowed handles among comma-separated pieces: each piece trimmed
/// and lowercased, blank pieces left out.
pub open spec fn allowed_entries(pieces: Seq<Seq<char>>) -> Seq<Seq<char>>
    decreases pieces.len(),
{
    if pieces.len() == 0 {
        Seq::empty()
    } else {
        let rest = allowed_entries(pieces.drop_last());
        let t = trim(pieces.last());
        if t.len() > 0 {
            rest.push(spec_lowercase(t))
        } else {
            rest
        }
    }
}

/// The allowed handles of a comma-separated list.
pub open spec fn allowed_handles(list: Seq<char>) -> Seq<Seq<char>> {
    allowed_entries(split_on(list, ','))
}

/// The outcome of checking `handle` against the configured list: an unset
/// list, or one without a non-blank entry, is not configured; a handle
/// passes when it is non-empty and, lowercased, equals one of the entries.
pub open spec fn handle_check(list: Option<Seq<char>>, handle: Seq<char>) -> Result<(), HandleError> {
    let allowed = allowed_handles(match list { Some(l) => l, None => Seq::empty() });
    if allowed.len() == 0 {
        Err(HandleError::NotConfigured)
    } else if handle.len() > 0 && allowed.contains(spec_lowercase(handle)) {
        Ok(())
    } else {
        Err(HandleError::NotAllowed)
    }
}

/// Whether `handle` may sign in, given the configured list of allowed
/// handles; the comparison ignores case and the spaces around each entry.
pub fn check_allowed_handle(allowed: Option<&str>, handle: &str) -> (r: Result<(), HandleError>)
    ensures
        r == handle_check(match allowed { Some(l) => Some(l@), None => None }, handle@),
{
    let list = match allowed {
        Some(l) => l,
        None => "",
    };
    let ghost lv: Seq<char> = match allowed { Some(l) => l@, None => Seq::empty() };
    proof {
        if allowed is None {
            reveal_strlit("");
            assert(list@ =~= lv);
        }
    }
    let pieces = split_char(list, ',');
    let ghost all = split_on(lv, ',');
    let mut entries: Vec<String> = Vec::new();
    let mut i: usize = 0;
    while i < pieces.len()
        invariant
            all == split_on(lv, ','),
            pieces@.len() == all.len(),
            forall|k: int| 0 <= k < pieces@.len() ==> #[trigger] pieces@[k]@ == all[k],
            i <= pieces@.len(),
            entries@.len() == allowed_entries(all.take(i as int)).len(),
            forall|k: int| 0 <= k < entries@.len() ==> #[trigger] entries@[k]@ == allowed_entries(all.take(i as int))[k],
        decreases pieces@.len() - i,
    {
        let t = trim_str(pieces[i].as_str());
        proof {
            assert(all.take(i + 1).drop_last() =~= all.take(i as int));
            assert(all.take(i + 1).last() == all[i as int]);
        }
        if t.unicode_len() > 0 {
            let entry = lowercase(t.as_str());
            entries.push(entry);
        }
        i = i + 1;
    }
    proof {
        assert(all.take(pieces@.len() as int) =~= all);
    }
    let ghost es = allowed_handles(lv);
    if entries.len() == 0 {
        return Err(HandleError::NotConfigured);
    }
    if handle.unicode_len() == 0 {
        return Err(HandleError::NotAllowed);
    }
    let wanted = lowercase(handle);
    let mut j: usize = 0;
    while j < entries.len()
        invariant
            lv == (match allowed { Some(l) => l@, None => Seq::<char>::empty() }),
            es == allowed_handles(lv),
            entries@.len() == es.len(),
            forall|k: int| 0 <= k < entries@.len() ==> #[trigger] entries@[k]@ == es[k],
            wanted@ == spec_lowercase(handle@),
            handle@.len() > 0,
            j <= entries@.len(),
            forall|k: int| 0 <= k < j ==> es[k] != wanted@,
        decreases entries@.len() - j,
    {
        if str_eq(entries[j].as_str(), wanted.as_str()) {
            proof {
                assert(es[j as int] == wanted@);
                assert(es.contains(spec_lowercase(handle@)));
                assert(es.len() > 0);
                assert(handle@.len() > 0);
            }
            return Ok(());
        }
        j = j + 1;
    }
    proof {
        assert(!es.contains(spec_lowercase(handle@)));
    }
    Err(HandleError::NotAllowed)
}

/// The thread a chat message continues: the form's thread URI, unless it
/// is missing or blank.
pub fn chat_thread(thread_uri: &Option<String>) -> (r: Option<String>)
    ensures
        r is Some <==> (thread_uri matches Some(t) && trim(t@).len() > 0),
        r matches Some(t) ==> t@ == thread_uri->Some_0@,
{
    match thread_uri {
        Some(t) => {
            let trimmed = trim_str(t.as_str());
            if trimmed.as_str().unicode_len() > 0 {
                Some(t.clone())
            } else {
                None
            }
        },
        None => None,
    }
}

/// Index of the last non-empty post URI, if any.
pub open spec fn last_post_index(post_uris: Seq<Seq<char>>) -> Option<int>
    decreases post_uris.len(),
{
    if post_uris.len() == 0 {
        None
    } else if post_uris.last().len() > 0 {
        Some(post_uris.len() - 1)
    } else {
        last_post_index(post_uris.drop_last())
    }
}

/// The post a chat reply answers: the latest message of the thread that has
/// a post URI; `None` means the message is posted on its own.
pub fn reply_parent(post_uris: &Vec<String>) -> (r: Option<String>)
    ensures
        match last_post_index(post_uris@.map_values(|u: String| u@)) {
            None => r is None,
            Some(i) => r matches Some(u) && u@ == post_uris@[i]@,
        },
{
    let ghost all = post_uris@.map_values(|u: String| u@);
    let mut i: usize = post_uris.len();
    proof {
        assert(all.take(i as int) =~= all);
    }
    while i > 0
        invariant
            all == post_uris@.map_values(|u: String| u@),
            i <= post_uris@.len(),
            last_post_index(all) == last_post_index(all.take(i as int)),
        decreases i,
    {
        proof {
            assert(all.take(i as int).drop_last() =~= all.take(i - 1));
            assert(all.take(i as int).last() == post_uris@[i - 1]@);
        }
        if post_uris[i - 1].as_str().unicode_len() > 0 {
            return Some(post_uris[i - 1].clone());
        }
        i = i - 1;
    }
    proof {
        assert(all.take(0) =~= Seq::<Seq<char>>::empty());
    }
    None
}

} // verus!
