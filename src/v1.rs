//! Version 1 of the API: the film routes under `/v1`.

use vstd::prelude::*;
use crate::films::film_routes;
use crate::routes::{scoped, Endpoint, Method, ServiceConfig};

verus! {

/// Registers the film routes under `/v1/films`.
pub fn service(cfg: &mut ServiceConfig)
    ensures
        final(cfg)@ == old(cfg)@ + film_routes("/v1/films"@),
{
    let mut v1 = ServiceConfig::new();
    crate::films::service(&mut v1);
    cfg.scope("/v1", v1);
    proof {
        reveal_strlit("/v1");
        reveal_strlit("/films");
        reveal_strlit("/v1/films");
        assert("/v1"@ + "/films"@ =~= "/v1/films"@);
        assert("/v1"@ + ("/films"@ + "/{film_id}"@) =~= "/v1/films"@ + "/{film_id}"@);
    }
    assert(film_routes("/films"@).map_values(
        |r: (Method, Seq<char>, Endpoint)| scoped("/v1"@, r),
    ) =~= film_routes("/v1/films"@));
}

} // verus!
