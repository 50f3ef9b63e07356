//! Planning the one API request: which endpoint a query goes to and the
//! query parameters sent with it.

use vstd::prelude::*;

use crate::config::Config;
use crate::text::dec_rep;
use crate::text::u32_to_decimal;

verus! {

/// The endpoint that answers with plain text.
pub open spec fn result_endpoint() -> Seq<char> {
    "https://api.wolframalpha.com/v1/result"@
}

/// The endpoint that answers with a rendered image.
pub open spec fn simple_endpoint() -> Seq<char> {
    "https://api.wolframalpha.com/v1/simple"@
}

/// The endpoint a request goes to: the image endpoint when a simple answer
/// was asked for, the text endpoint otherwise.
pub open spec fn chosen_endpoint(simple: bool) -> Seq<char> {
    if simple {
        simple_endpoint()
    } else {
        result_endpoint()
    }
}

/// Everything the one HTTP request is made of: the endpoint and the query
/// parameters, each a name paired with its value.
pub struct RequestPlan {
    pub url: String,
    pub params: Vec<(String, String)>,
}

/// The exact parameter list a request carries: the credential, the query
/// itself, and the configured unit system, colours and font size, the last
/// rendered in decimal.
pub open spec fn params_for(ps: Seq<(String, String)>, c: Config, q: Seq<char>) -> bool {
    &&& ps.len() == 6
    &&& ps[0].0@ == "appid"@ && ps[0].1@ == c.app_id@
    &&& ps[1].0@ == "i"@ && ps[1].1@ == q
    &&& ps[2].0@ == "units"@ && ps[2].1@ == c.units@
    &&& ps[3].0@ == "background"@ && ps[3].1@ == c.background@
    &&& ps[4].0@ == "foreground"@ && ps[4].1@ == c.foreground@
    &&& ps[5].0@ == "fontsize"@ && ps[5].1@ == dec_rep(c.font_size as nat)
}

/// Plans the request for `query`: an empty query is refused, any other is
/// sent to the endpoint that `simple` picks, with the full parameter list.
pub fn plan_request(config: &Config, query: &str, simple: bool) -> (r: Option<RequestPlan>)
    ensures
        r is Some <==> query@.len() > 0,
        r matches Some(p) ==> p.url@ == chosen_endpoint(simple) && params_for(
            p.params@,
            *config,
            query@,
        ),
{
    if query.is_empty() {
        return None;
    }
    let url = if simple {
        "https://api.wolframalpha.com/v1/simple".to_owned()
    } else {
        "https://api.wolframalpha.com/v1/result".to_owned()
    };
    let mut params: Vec<(String, String)> = Vec::new();
    params.push(("appid".to_owned(), config.app_id.clone()));
    params.push(("i".to_owned(), query.to_owned()));
    params.push(("units".to_owned(), config.units.clone()));
    params.push(("background".to_owned(), config.background.clone()));
    params.push(("foreground".to_owned(), config.foreground.clone()));
    params.push(("fontsize".to_owned(), u32_to_decimal(config.font_size)));
    Some(RequestPlan { url, params })
}

} // verus!
