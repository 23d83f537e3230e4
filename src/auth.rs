use vstd::prelude::*;

verus! {

/// Why an inbound caller was turned away.
#[derive(Debug, PartialEq, Eq, Structural, Clone, Copy)]
pub enum AuthError {
    /// No `Authorization` header, or one that is not of the form `Bearer <key>`.
    MissingAuthorization,
    /// A bearer key that is not among the configured ones.
    InvalidApiKey,
}

pub open spec fn bearer_prefix() -> Seq<char> {
    "Bearer "@
}

/// Whether `header` presents one of `keys` as a bearer key.
pub open spec fn presents_key(keys: Seq<Seq<char>>, header: Seq<char>) -> bool {
    exists|i: int| 0 <= i < keys.len() && header == bearer_prefix() + #[trigger] keys[i]
}

/// Relies on str::strip_prefix: the rest of `s` after `prefix`, if `s` starts with it.
#[verifier::external_body]
fn strip_prefix<'a>(s: &'a str, prefix: &str) -> (r: Option<&'a str>)
    ensures
        match r {
            Some(rest) => s@ == prefix@ + rest@,
            None => !prefix@.is_prefix_of(s@),
        },
{
    s.strip_prefix(prefix)
}

/// Admits an inbound caller. Without configured keys everyone is admitted;
/// with them, the `Authorization` header must be `Bearer ` followed by one of them.
pub fn authorize(api_keys: &Option<Vec<String>>, header: Option<&str>) -> (r: Result<(), AuthError>)
    ensures
        match api_keys {
            None => r is Ok,
            Some(keys) => match header {
                None => r == Err::<(), AuthError>(AuthError::MissingAuthorization),
                Some(h) => {
                    &&& r is Ok <==> presents_key(keys@.map_values(|k: String| k@), h@)
                    &&& r == Err::<(), AuthError>(AuthError::MissingAuthorization) <==> !bearer_prefix().is_prefix_of(h@)
                },
            },
        },
{
    let keys = match api_keys {
        None => return Ok(()),
        Some(keys) => keys,
    };
    let h = match header {
        None => return Err(AuthError::MissingAuthorization),
        Some(h) => h,
    };
    let ghost ks = keys@.map_values(|k: String| k@);
    let key = match strip_prefix(h, "Bearer ") {
        None => {
            proof {
                assert forall|i: int| 0 <= i < ks.len() implies h@ != bearer_prefix() + #[trigger] ks[i] by {
                    if h@ == bearer_prefix() + ks[i] {
                        assert(bearer_prefix().is_prefix_of(h@)) by {
                            assert((bearer_prefix() + ks[i]).subrange(0, bearer_prefix().len() as int) =~= bearer_prefix());
                        }
                    }
                }
            }
            return Err(AuthError::MissingAuthorization);
        },
        Some(rest) => rest,
    };
    proof {
        assert(bearer_prefix().is_prefix_of(h@)) by {
            assert((bearer_prefix() + key@).subrange(0, bearer_prefix().len() as int) =~= bearer_prefix());
        }
    }
    let wanted = String::from_str(key);
    let mut i: usize = 0;
    while i < keys.len()
        invariant
            i <= keys@.len(),
            h@ == bearer_prefix() + key@,
            wanted@ == key@,
            *api_keys == Some(*keys),
            header == Some(h),
            ks == keys@.map_values(|k: String| k@),
            forall|j: int| 0 <= j < i ==> ks[j] != key@,
        decreases keys@.len() - i,
    {
        assert(ks[i as int] == keys@[i as int]@);
        if keys[i] == wanted {
            assert(h@ == bearer_prefix() + ks[i as int]);
            return Ok(());
        }
        i = i + 1;
    }
    proof {
        assert forall|j: int| 0 <= j < ks.len() implies h@ != bearer_prefix() + #[trigger] ks[j] by {
            if h@ == bearer_prefix() + ks[j] {
                assert(ks[j] =~= (bearer_prefix() + ks[j]).subrange(bearer_prefix().len() as int, h@.len() as int));
                assert(key@ =~= (bearer_prefix() + key@).subrange(bearer_prefix().len() as int, h@.len() as int));
            }
        }
    }
    Err(AuthError::InvalidApiKey)
}

} // verus!
