//! The session against the student platform.
//!
//! Building the session installs the three fixed platform-identifying
//! headers that mimic the vendor's official front end, then the bearer
//! token as the `authorization` header, all against the platform's fixed
//! base URL. Building fails exactly when that base URL is not a valid
//! absolute URL. The token must be pure ASCII; the caller checks it (or
//! calls [`crate::api_client::ApiClient::set_authorization`] itself to get
//! the diagnostic) before building the session.

use crate::api_client::{
    ascii_lower, header_map, lemma_merged_push, merged, url_ok, ApiClient, ApiError,
};
use vstd::prelude::*;

verus! {

/// The default headers of a session with the given bearer token installed,
/// keyed by their lowercased (canonical) names.
pub open spec fn default_header_map(token: Seq<char>) -> Map<Seq<char>, Seq<char>> {
    Map::<Seq<char>, Seq<char>>::empty().insert("host"@, "apis.estudante.estacio.br"@).insert(
        "origin"@,
        "https://estudante.estacio.br"@,
    ).insert("referer"@, "https://estudante.estacio.br/"@).insert("authorization"@, token)
}

/// A session against the student platform's API host.
#[derive(Debug)]
pub struct EstacioClient {
    pub api: ApiClient,
}

impl EstacioClient {
    /// A session against the platform's base URL whose headers are exactly
    /// the three fixed platform-identifying ones plus the authorization
    /// header carrying the token verbatim. Fails, before any header is
    /// installed, exactly when the fixed base URL is not a valid absolute
    /// URL.
    pub fn new(token: &str) -> (r: Result<EstacioClient, ApiError>)
        requires
            vstd::string::is_ascii(token),
        ensures
            r is Ok <==> url_ok("https://apis.estudante.estacio.br"@),
            r matches Ok(c) ==> c.api.wf() && c.api.base_url@
                == "https://apis.estudante.estacio.br"@ && header_map(c.api.headers@)
                == default_header_map(token@) && (c.api.token matches Some(t) && t@ == token@),
            r matches Err(e) ==> (e matches ApiError::InvalidBaseUrl { base_url } && base_url@
                == "https://apis.estudante.estacio.br"@),
    {
        let mut api = match ApiClient::new("https://apis.estudante.estacio.br") {
            Ok(api) => api,
            Err(e) => {
                return Err(e);
            },
        };
        let ghost base = header_map(api.headers@);
        let mut hs: Vec<(String, String)> = Vec::new();
        let ghost s0 = hs@;
        hs.push(("Host".to_owned(), "apis.estudante.estacio.br".to_owned()));
        let ghost s1 = hs@;
        hs.push(("Origin".to_owned(), "https://estudante.estacio.br".to_owned()));
        let ghost s2 = hs@;
        hs.push(("Referer".to_owned(), "https://estudante.estacio.br/".to_owned()));
        api.update_headers(&hs);
        proof {
            assert(s0 =~= Seq::<(String, String)>::empty());
            lemma_merged_push(base, s0, s1.last());
            lemma_merged_push(base, s1, s2.last());
            lemma_merged_push(base, s2, hs@.last());
            assert(ascii_lower("Host"@) =~= "host"@) by {
                reveal_strlit("Host");
                reveal_strlit("host");
            }
            assert(ascii_lower("Origin"@) =~= "origin"@) by {
                reveal_strlit("Origin");
                reveal_strlit("origin");
            }
            assert(ascii_lower("Referer"@) =~= "referer"@) by {
                reveal_strlit("Referer");
                reveal_strlit("referer");
            }
        }
        let auth_result = api.set_authorization(token);
        proof {
            assert(auth_result is Ok);
            assert(header_map(api.headers@) =~= default_header_map(token@));
        }
        Ok(EstacioClient { api })
    }
}

} // verus!
