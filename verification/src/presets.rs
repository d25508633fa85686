//! Request presets: the fixed URLs of the core and live APIs, and the
//! comma-joined identifier lists they take as query parameters.  A preset
//! holds plain values; building its request is pure string work.

use crate::request::{Method, NadeoRequest};
use crate::session::AuthType;
use vstd::prelude::*;
use vstd::string::*;

verus! {

/// The views of a sequence of owned strings.
pub open spec fn views_of(items: Seq<String>) -> Seq<Seq<char>> {
    Seq::new(items.len(), |i: int| items[i]@)
}

/// The items joined with single commas, without a trailing comma.
pub open spec fn spec_comma_list(items: Seq<Seq<char>>) -> Seq<char>
    decreases items.len(),
{
    if items.len() == 0 {
        Seq::empty()
    } else if items.len() == 1 {
        items[0]
    } else {
        spec_comma_list(items.drop_last()) + ","@ + items.last()
    }
}

/// Joins the entries with commas, as API list query parameters expect.
pub fn to_list(list: &[String]) -> (r: String)
    ensures
        r@ == spec_comma_list(views_of(list@)),
{
    let mut out = String::new();
    let n = list.len();
    let mut i: usize = 0;
    while i < n
        invariant
            n == list@.len(),
            i <= n,
            out@ == spec_comma_list(views_of(list@).take(i as int)),
        decreases n - i,
    {
        if i > 0 {
            out.append(",");
        }
        out.append(list[i].as_str());
        proof {
            let vs = views_of(list@);
            assert(vs.take(i as int + 1).drop_last() =~= vs.take(i as int));
            assert(vs.take(i as int + 1).last() == list@[i as int]@);
            if i == 0 {
                assert(out@ =~= vs.take(1)[0]);
            }
        }
        i += 1;
    }
    proof {
        assert(views_of(list@).take(n as int) =~= views_of(list@));
    }
    out
}

/// As `to_list`, for an owned vector of entries.
pub fn as_comma_list(list: &Vec<String>) -> (r: String)
    ensures
        r@ == spec_comma_list(views_of(list@)),
{
    to_list(list.as_slice())
}

/// An account-centred request of the core API.
#[derive(Debug)]
pub enum AccountRequest {
    GetClubTags { account_ids: Vec<String> },
    GetWebIdentities { account_ids: Vec<String> },
    GetPlayerZones { account_ids: Vec<String> },
}

/// A map-centred request of the core API.
#[derive(Debug)]
pub enum MapRequest {
    GetMapInfo { map_uids: Vec<String> },
    GetMapRecords { account_ids: Vec<String>, map_ids: Vec<String>, season_id: String },
    GetRecordById { map_record_id: String },
}

/// Which route table a route-listing request asks for.
#[derive(Debug, Clone, Copy, PartialEq, Eq, Structural)]
pub enum ApiRouteUsage {
    Client,
    Server,
}

impl ApiRouteUsage {
    /// The identifier the API expects for this usage.
    pub fn name(&self) -> (r: &'static str)
        ensures
            self == ApiRouteUsage::Client ==> r@ == "Client"@,
            self == ApiRouteUsage::Server ==> r@ == "Server"@,
    {
        match self {
            ApiRouteUsage::Client => "Client",
            ApiRouteUsage::Server => "Server",
        }
    }
}

/// A metadata request of the core API.
#[derive(Debug)]
pub enum MetaRequest {
    GetApiRoutes { usage: ApiRouteUsage },
    GetZones,
}

/// A skin-centred request of the core API.
#[derive(Debug)]
pub enum SkinRequest {
    GetEquippedSkins { account_ids: Vec<String> },
    GetFavoritedSkins { account_id: String },
    GetSkinInfo { skin_id: String },
}

/// A request of the core API.
#[derive(Debug)]
pub enum CoreRequest {
    Account(AccountRequest),
    Maps(MapRequest),
    Meta(MetaRequest),
    Skin(SkinRequest),
}

/// A campaign request of the live API.
#[derive(Debug)]
pub enum CampaignRequest {
    GetTOTDMaps { length: u32, offset: u32 },
    GetRoyalMaps { length: u32, offset: u32 },
    GetOfficialInfo { map_uid: String },
    GetCampaigns { length: u32, offset: u32 },
}

/// A club request of the live API.
#[derive(Debug)]
pub enum ClubRequest {
    GetMember { club_id: String, member_id: String },
    GetMemberByName { club_id: String, member_name: String },
    GetActivities { club_id: String, length: u32, offset: u32, include_active_only: bool },
    GetClubById { club_id: String },
    GetClubCampaignById { club_id: i32, campaign_id: i32 },
}

/// A request of the live API.
#[derive(Debug)]
pub enum LiveRequest {
    Campaign(CampaignRequest),
}

/// Any preset request.
#[derive(Debug)]
pub enum RequestPreset {
    Core(CoreRequest),
    Live(LiveRequest),
}

/// A web-identity provider named in identity listings.
#[derive(Debug, Clone, Copy, PartialEq, Eq, Structural)]
pub enum Provider {
    UbiServices,
    UPlay,
}

impl Provider {
    /// The identifier the API uses for this provider.
    pub fn name(&self) -> (r: &'static str)
        ensures
            self == Provider::UbiServices ==> r@ == "ubiServices"@,
            self == Provider::UPlay ==> r@ == "uplay"@,
    {
        match self {
            Provider::UbiServices => "ubiServices",
            Provider::UPlay => "uplay",
        }
    }
}

/// Reads a provider identifier, if and only if it is a known one.
pub fn provider_from_str(s: &str) -> (r: Option<Provider>)
    ensures
        match r {
            Option::Some(Provider::UbiServices) => s@ == "ubiServices"@,
            Option::Some(Provider::UPlay) => s@ == "uplay"@,
            Option::None => s@ != "ubiServices"@ && s@ != "uplay"@,
        },
{
    let v = String::from_str(s);
    if v == String::from_str("ubiServices") {
        Option::Some(Provider::UbiServices)
    } else if v == String::from_str("uplay") {
        Option::Some(Provider::UPlay)
    } else {
        Option::None
    }
}

/// A preset that builds its own dispatchable request.
pub trait ToRequest {
    /// The URL the preset dispatches to.
    spec fn spec_url(&self) -> Seq<char>;

    /// The audience the preset's request is scoped to.
    spec fn spec_auth_type(&self) -> AuthType;

    /// Builds the dispatchable request: a GET with no body and no extra
    /// headers.
    fn to_request(&self) -> (r: NadeoRequest)
        ensures
            r.url@ == self.spec_url(),
            r.auth_type == self.spec_auth_type(),
            r.method == Method::Get,
            r.headers@.len() == 0,
            r.body is None,
    ;
}

impl ToRequest for AccountRequest {
    open spec fn spec_url(&self) -> Seq<char> {
        match self {
            AccountRequest::GetClubTags { account_ids } =>
                "https://prod.trackmania.core.nadeo.online/accounts/clubTags/?accountIdList="@
                + spec_comma_list(views_of(account_ids@)),
            AccountRequest::GetWebIdentities { account_ids } =>
                "https://prod.trackmania.core.nadeo.online/webidentities/?accountIdList="@
                + spec_comma_list(views_of(account_ids@)),
            AccountRequest::GetPlayerZones { account_ids } =>
                "https://prod.trackmania.core.nadeo.online/accounts/zones/?accountIdList="@
                + spec_comma_list(views_of(account_ids@)),
        }
    }

    open spec fn spec_auth_type(&self) -> AuthType {
        AuthType::NadeoServices
    }

    fn to_request(&self) -> (r: NadeoRequest) {
        let url = match self {
            AccountRequest::GetClubTags { account_ids } => String::from_str(
                "https://prod.trackmania.core.nadeo.online/accounts/clubTags/?accountIdList=",
            ).concat(as_comma_list(account_ids).as_str()),
            AccountRequest::GetWebIdentities { account_ids } => String::from_str(
                "https://prod.trackmania.core.nadeo.online/webidentities/?accountIdList=",
            ).concat(as_comma_list(account_ids).as_str()),
            AccountRequest::GetPlayerZones { account_ids } => String::from_str(
                "https://prod.trackmania.core.nadeo.online/accounts/zones/?accountIdList=",
            ).concat(as_comma_list(account_ids).as_str()),
        };
        NadeoRequest::new(Method::Get, url, AuthType::NadeoServices)
    }
}

impl NadeoRequest {
    /// The club-tag listing of the core API, for a list of account ids.
    pub fn get_club_tags(account_ids: &[String]) -> (r: NadeoRequest)
        ensures
            r.url@ ==
                "https://prod.trackmania.core.nadeo.online/accounts/clubTags/?accountIdList="@
                + spec_comma_list(views_of(account_ids@)),
            r.method == Method::Get,
            r.auth_type == AuthType::NadeoServices,
            r.headers@.len() == 0,
            r.body is None,
    {
        let url = String::from_str(
            "https://prod.trackmania.core.nadeo.online/accounts/clubTags/?accountIdList=",
        ).concat(to_list(account_ids).as_str());
        NadeoRequest::new(Method::Get, url, AuthType::NadeoServices)
    }

    /// The web-identity listing of the core API.
    pub fn get_web_identities(account_ids: &[String]) -> (r: NadeoRequest)
        ensures
            r.url@ == "https://prod.trackmania.core.nadeo.online/webidentities/?accountIdList="@
                + spec_comma_list(views_of(account_ids@)),
            r.method == Method::Get,
            r.auth_type == AuthType::NadeoServices,
            r.headers@.len() == 0,
            r.body is None,
    {
        let url = String::from_str(
            "https://prod.trackmania.core.nadeo.online/webidentities/?accountIdList=",
        ).concat(to_list(account_ids).as_str());
        NadeoRequest::new(Method::Get, url, AuthType::NadeoServices)
    }

    /// The zone listing of the core API.
    pub fn get_player_zones(account_ids: &[String]) -> (r: NadeoRequest)
        ensures
            r.url@ == "https://prod.trackmania.core.nadeo.online/accounts/zones/?accountIdList="@
                + spec_comma_list(views_of(account_ids@)),
            r.method == Method::Get,
            r.auth_type == AuthType::NadeoServices,
            r.headers@.len() == 0,
            r.body is None,
    {
        let url = String::from_str(
            "https://prod.trackmania.core.nadeo.online/accounts/zones/?accountIdList=",
        ).concat(to_list(account_ids).as_str());
        NadeoRequest::new(Method::Get, url, AuthType::NadeoServices)
    }

    /// The map-info listing of the core API, for a list of map uids.
    pub fn get_map_infos(map_uids: &[String]) -> (r: NadeoRequest)
        ensures
            r.url@ == "https://prod.trackmania.core.nadeo.online/maps/?mapUidList="@
                + spec_comma_list(views_of(map_uids@)),
            r.method == Method::Get,
            r.auth_type == AuthType::NadeoServices,
            r.headers@.len() == 0,
            r.body is None,
    {
        let url = String::from_str(
            "https://prod.trackmania.core.nadeo.online/maps/?mapUidList=",
        ).concat(to_list(map_uids).as_str());
        NadeoRequest::new(Method::Get, url, AuthType::NadeoServices)
    }
}

} // verus!
