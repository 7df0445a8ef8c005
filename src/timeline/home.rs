use vstd::prelude::*;

use crate::fields::{
    absent, bool_field, bool_fits, bool_is, doc_list_field, doc_list_fits, doc_list_is,
    doc_map_field, doc_map_fits, doc_map_is, int_field, int_fits, int_is, int_list_field,
    int_list_fits, int_list_is, text_field, text_fits, text_is, text_list_field, text_list_fits,
    text_list_is,
};
use crate::json::{deref_json, lemma_field_smaller, Json};

verus! {

/// A decoded tweet result. Only `legacy` is required; a quoted status
/// nests a whole tweet result of its own.
#[derive(Debug)]
pub struct TwitterResponse {
    pub typename: Option<String>,
    pub core: Option<Core>,
    pub edit_control: Option<EditControl>,
    pub is_translatable: Option<bool>,
    pub legacy: Legacy,
    pub quoted_status_result: Option<QuotedStatusResult>,
    pub rest_id: Option<String>,
    pub source: Option<String>,
    pub unmention_data: Option<Vec<(String, Json)>>,
    pub views: Option<Views>,
}

#[derive(Debug, Clone)]
pub struct Core {
    pub user_results: Option<UserResults>,
}

#[derive(Debug, Clone)]
pub struct UserResults {
    pub result: Option<UserResult>,
}

#[derive(Debug, Clone)]
pub struct UserResult {
    pub typename: Option<String>,
    pub affiliates_highlighted_label: Option<AffiliatesHighlightedLabel>,
    pub has_graduated_access: Option<bool>,
    pub id: Option<String>,
    pub is_blue_verified: Option<bool>,
    pub legacy: Option<UserLegacy>,
    pub professional: Option<Professional>,
    pub profile_image_shape: Option<String>,
    pub rest_id: Option<String>,
    pub tipjar_settings: Option<Vec<(String, Json)>>,
}

#[derive(Debug, Clone)]
pub struct AffiliatesHighlightedLabel {
    pub label: Option<Label>,
}

#[derive(Debug, Clone)]
pub struct Label {
    pub badge: Option<Badge>,
    pub description: Option<String>,
    pub url: Option<LabelUrl>,
    pub user_label_display_type: Option<String>,
    pub user_label_type: Option<String>,
}

#[derive(Debug, Clone)]
pub struct Badge {
    pub url: Option<String>,
}

#[derive(Debug, Clone)]
pub struct LabelUrl {
    pub url: Option<String>,
    pub url_type: Option<String>,
}

#[derive(Debug, Clone)]
pub struct UserLegacy {
    pub can_dm: Option<bool>,
    pub can_media_tag: Option<bool>,
    pub created_at: Option<String>,
    pub default_profile: Option<bool>,
    pub default_profile_image: Option<bool>,
    pub description: Option<String>,
    pub entities: Option<UserEntities>,
    pub fast_followers_count: Option<i64>,
    pub favourites_count: Option<i64>,
    pub followers_count: Option<i64>,
    pub following: Option<bool>,
    pub friends_count: Option<i64>,
    pub has_custom_timelines: Option<bool>,
    pub is_translator: Option<bool>,
    pub listed_count: Option<i64>,
    pub location: Option<String>,
    pub media_count: Option<i64>,
    pub name: Option<String>,
    pub normal_followers_count: Option<i64>,
    pub pinned_tweet_ids_str: Option<Vec<String>>,
    pub possibly_sensitive: Option<bool>,
    pub profile_banner_url: Option<String>,
    pub profile_image_url_https: Option<String>,
    pub profile_interstitial_type: Option<String>,
    pub screen_name: Option<String>,
    pub statuses_count: Option<i64>,
    pub translator_type: Option<String>,
    pub url: Option<String>,
    pub verified: Option<bool>,
    pub want_retweets: Option<bool>,
    pub withheld_in_countries: Option<Vec<String>>,
}

#[derive(Debug, Clone)]
pub struct UserEntities {
    pub description: Option<Description>,
    pub url: Option<UrlEntity>,
}

#[derive(Debug, Clone)]
pub struct Description {
    pub urls: Option<Vec<UrlInfo>>,
}

#[derive(Debug, Clone)]
pub struct UrlEntity {
    pub urls: Option<Vec<UrlInfo>>,
}

#[derive(Debug, Clone)]
pub struct UrlInfo {
    pub display_url: Option<String>,
    pub expanded_url: Option<String>,
    pub indices: Option<Vec<i64>>,
    pub url: Option<String>,
}

#[derive(Debug, Clone)]
pub struct Professional {
    pub category: Option<Vec<Category>>,
    pub professional_type: Option<String>,
    pub rest_id: Option<String>,
}

#[derive(Debug, Clone)]
pub struct Category {
    pub icon_name: Option<String>,
    pub id: Option<i64>,
    pub name: Option<String>,
}

#[derive(Debug, Clone)]
pub struct EditControl {
    pub edit_tweet_ids: Option<Vec<String>>,
    pub editable_until_msecs: Option<String>,
    pub edits_remaining: Option<String>,
    pub is_edit_eligible: Option<bool>,
}

#[derive(Debug, Clone)]
pub struct Legacy {
    pub bookmark_count: Option<i64>,
    pub bookmarked: Option<bool>,
    pub conversation_id_str: Option<String>,
    pub created_at: Option<String>,
    pub display_text_range: Option<Vec<i64>>,
    pub entities: Option<Entities>,
    pub favorite_count: Option<i64>,
    pub favorited: Option<bool>,
    pub full_text: Option<String>,
    pub id_str: Option<String>,
    pub is_quote_status: Option<bool>,
    pub lang: Option<String>,
    pub quote_count: Option<i64>,
    pub quoted_status_id_str: Option<String>,
    pub quoted_status_permalink: Option<QuotedStatusPermalink>,
    pub reply_count: Option<i64>,
    pub retweet_count: Option<i64>,
    pub retweeted: Option<bool>,
    pub user_id_str: Option<String>,
}

#[derive(Debug, Clone)]
pub struct Entities {
    pub hashtags: Option<Vec<Json>>,
    pub symbols: Option<Vec<Json>>,
    pub timestamps: Option<Vec<Json>>,
    pub urls: Option<Vec<UrlInfo>>,
    pub user_mentions: Option<Vec<Json>>,
}

#[derive(Debug, Clone)]
pub struct QuotedStatusPermalink {
    pub display: Option<String>,
    pub expanded: Option<String>,
    pub url: Option<String>,
}

#[derive(Debug)]
pub struct QuotedStatusResult {
    pub result: Option<Box<TwitterResponse>>,
}

#[derive(Debug, Clone)]
pub struct Views {
    pub count: Option<String>,
    pub state: Option<String>,
}

impl TwitterResponse {
    /// `j` has the shape of a `TwitterResponse`.
    pub open spec fn fits(j: Json) -> bool
        decreases j,
    {
        proof {
            lemma_field_smaller(j, "quoted_status_result"@);
        }
        &&& j is Object
        &&& text_fits(j.field("__typename"@))
        &&& (absent(j.field("core"@)) || Core::fits(j.field("core"@).unwrap()))
        &&& (absent(j.field("edit_control"@)) || EditControl::fits(j.field("edit_control"@).unwrap()))
        &&& bool_fits(j.field("is_translatable"@))
        &&& (j.field("legacy"@) matches Some(v) && Legacy::fits(v))
        &&& (absent(j.field("quoted_status_result"@)) || QuotedStatusResult::fits(j.field("quoted_status_result"@).unwrap()))
        &&& text_fits(j.field("rest_id"@))
        &&& text_fits(j.field("source"@))
        &&& doc_map_fits(j.field("unmention_data"@))
        &&& (absent(j.field("views"@)) || Views::fits(j.field("views"@).unwrap()))
    }

    /// `x` holds what `j` holds, member by member.
    pub open spec fn decodes_to(j: Json, x: TwitterResponse) -> bool
        decreases j,
    {
        proof {
            lemma_field_smaller(j, "quoted_status_result"@);
        }
        &&& j is Object
        &&& text_is(j.field("__typename"@), x.typename)
        &&& (if absent(j.field("core"@)) {
            x.core is None
        } else {
            x.core matches Some(y) && Core::decodes_to(j.field("core"@).unwrap(), y)
        })
        &&& (if absent(j.field("edit_control"@)) {
            x.edit_control is None
        } else {
            x.edit_control matches Some(y) && EditControl::decodes_to(j.field("edit_control"@).unwrap(), y)
        })
        &&& bool_is(j.field("is_translatable"@), x.is_translatable)
        &&& Legacy::decodes_to(j.field("legacy"@).unwrap(), x.legacy)
        &&& (if absent(j.field("quoted_status_result"@)) {
            x.quoted_status_result is None
        } else {
            x.quoted_status_result matches Some(y) && QuotedStatusResult::decodes_to(j.field("quoted_status_result"@).unwrap(), y)
        })
        &&& text_is(j.field("rest_id"@), x.rest_id)
        &&& text_is(j.field("source"@), x.source)
        &&& doc_map_is(j.field("unmention_data"@), x.unmention_data)
        &&& (if absent(j.field("views"@)) {
            x.views is None
        } else {
            x.views matches Some(y) && Views::decodes_to(j.field("views"@).unwrap(), y)
        })
    }

    /// Decodes `j`; `None` where some member has the wrong shape.
    pub fn from_json(j: &Json) -> (r: Option<TwitterResponse>)
        ensures
            r is Some <==> TwitterResponse::fits(*j),
            r matches Some(x) ==> TwitterResponse::decodes_to(*j, x),
        decreases j,
    {
        if !j.is_object() {
            return None;
        }
        let typename = match text_field(j, "__typename") {
            Some(v) => v,
            None => return None,
        };
        let core = match j.get("core") {
            None => None,
            Some(Json::Null) => None,
            Some(v) => {
                match Core::from_json(v) {
                    Some(d) => Some(d),
                    None => return None,
                }
            },
        };
        let edit_control = match j.get("edit_control") {
            None => None,
            Some(Json::Null) => None,
            Some(v) => {
                match EditControl::from_json(v) {
                    Some(d) => Some(d),
                    None => return None,
                }
            },
        };
        let is_translatable = match bool_field(j, "is_translatable") {
            Some(v) => v,
            None => return None,
        };
        let legacy = match j.get("legacy") {
            Some(v) => match Legacy::from_json(v) {
                Some(d) => d,
                None => return None,
            },
            None => return None,
        };
        let quoted_status_result = match j.get("quoted_status_result") {
            None => None,
            Some(Json::Null) => None,
            Some(v) => {
                proof {
                    lemma_field_smaller(*j, "quoted_status_result"@);
                }
                match QuotedStatusResult::from_json(v) {
                    Some(d) => Some(d),
                    None => return None,
                }
            },
        };
        let rest_id = match text_field(j, "rest_id") {
            Some(v) => v,
            None => return None,
        };
        let source = match text_field(j, "source") {
            Some(v) => v,
            None => return None,
        };
        let unmention_data = match doc_map_field(j, "unmention_data") {
            Some(v) => v,
            None => return None,
        };
        let views = match j.get("views") {
            None => None,
            Some(Json::Null) => None,
            Some(v) => {
                match Views::from_json(v) {
                    Some(d) => Some(d),
                    None => return None,
                }
            },
        };
        Some(TwitterResponse { typename, core, edit_control, is_translatable, legacy, quoted_status_result, rest_id, source, unmention_data, views })
    }
}

impl Core {
    /// `j` has the shape of a `Core`.
    pub open spec fn fits(j: Json) -> bool {
        &&& j is Object
        &&& (absent(j.field("user_results"@)) || UserResults::fits(j.field("user_results"@).unwrap()))
    }

    /// `x` holds what `j` holds, member by member.
    pub open spec fn decodes_to(j: Json, x: Core) -> bool {
        &&& j is Object
        &&& (if absent(j.field("user_results"@)) {
            x.user_results is None
        } else {
            x.user_results matches Some(y) && UserResults::decodes_to(j.field("user_results"@).unwrap(), y)
        })
    }

    /// Decodes `j`; `None` where some member has the wrong shape.
    pub fn from_json(j: &Json) -> (r: Option<Core>)
        ensures
            r is Some <==> Core::fits(*j),
            r matches Some(x) ==> Core::decodes_to(*j, x),
    {
        if !j.is_object() {
            return None;
        }
        let user_results = match j.get("user_results") {
            None => None,
            Some(Json::Null) => None,
            Some(v) => {
                match UserResults::from_json(v) {
                    Some(d) => Some(d),
                    None => return None,
                }
            },
        };
        Some(Core { user_results })
    }
}

impl UserResults {
    /// `j` has the shape of a `UserResults`.
    pub open spec fn fits(j: Json) -> bool {
        &&& j is Object
        &&& (absent(j.field("result"@)) || UserResult::fits(j.field("result"@).unwrap()))
    }

    /// `x` holds what `j` holds, member by member.
    pub open spec fn decodes_to(j: Json, x: UserResults) -> bool {
        &&& j is Object
        &&& (if absent(j.field("result"@)) {
            x.result is None
        } else {
            x.result matches Some(y) && UserResult::decodes_to(j.field("result"@).unwrap(), y)
        })
    }

    /// Decodes `j`; `None` where some member has the wrong shape.
    pub fn from_json(j: &Json) -> (r: Option<UserResults>)
        ensures
            r is Some <==> UserResults::fits(*j),
            r matches Some(x) ==> UserResults::decodes_to(*j, x),
    {
        if !j.is_object() {
            return None;
        }
        let result = match j.get("result") {
            None => None,
            Some(Json::Null) => None,
            Some(v) => {
                match UserResult::from_json(v) {
                    Some(d) => Some(d),
                    None => return None,
                }
            },
        };
        Some(UserResults { result })
    }
}

impl UserResult {
    /// `j` has the shape of a `UserResult`.
    pub open spec fn fits(j: Json) -> bool {
        &&& j is Object
        &&& text_fits(j.field("__typename"@))
        &&& (absent(j.field("affiliates_highlighted_label"@)) || AffiliatesHighlightedLabel::fits(j.field("affiliates_highlighted_label"@).unwrap()))
        &&& bool_fits(j.field("has_graduated_access"@))
        &&& text_fits(j.field("id"@))
        &&& bool_fits(j.field("is_blue_verified"@))
        &&& (absent(j.field("legacy"@)) || UserLegacy::fits(j.field("legacy"@).unwrap()))
        &&& (absent(j.field("professional"@)) || Professional::fits(j.field("professional"@).unwrap()))
        &&& text_fits(j.field("profile_image_shape"@))
        &&& text_fits(j.field("rest_id"@))
        &&& doc_map_fits(j.field("tipjar_settings"@))
    }

    /// `x` holds what `j` holds, member by member.
    pub open spec fn decodes_to(j: Json, x: UserResult) -> bool {
        &&& j is Object
        &&& text_is(j.field("__typename"@), x.typename)
        &&& (if absent(j.field("affiliates_highlighted_label"@)) {
            x.affiliates_highlighted_label is None
        } else {
            x.affiliates_highlighted_label matches Some(y) && AffiliatesHighlightedLabel::decodes_to(j.field("affiliates_highlighted_label"@).unwrap(), y)
        })
        &&& bool_is(j.field("has_graduated_access"@), x.has_graduated_access)
        &&& text_is(j.field("id"@), x.id)
        &&& bool_is(j.field("is_blue_verified"@), x.is_blue_verified)
        &&& (if absent(j.field("legacy"@)) {
            x.legacy is None
        } else {
            x.legacy matches Some(y) && UserLegacy::decodes_to(j.field("legacy"@).unwrap(), y)
        })
        &&& (if absent(j.field("professional"@)) {
            x.professional is None
        } else {
            x.professional matches Some(y) && Professional::decodes_to(j.field("professional"@).unwrap(), y)
        })
        &&& text_is(j.field("profile_image_shape"@), x.profile_image_shape)
        &&& text_is(j.field("rest_id"@), x.rest_id)
        &&& doc_map_is(j.field("tipjar_settings"@), x.tipjar_settings)
    }

    /// Decodes `j`; `None` where some member has the wrong shape.
    pub fn from_json(j: &Json) -> (r: Option<UserResult>)
        ensures
            r is Some <==> UserResult::fits(*j),
            r matches Some(x) ==> UserResult::decodes_to(*j, x),
    {
        if !j.is_object() {
            return None;
        }
        let typename = match text_field(j, "__typename") {
            Some(v) => v,
            None => return None,
        };
        let affiliates_highlighted_label = match j.get("affiliates_highlighted_label") {
            None => None,
            Some(Json::Null) => None,
            Some(v) => {
                match AffiliatesHighlightedLabel::from_json(v) {
                    Some(d) => Some(d),
                    None => return None,
                }
            },
        };
        let has_graduated_access = match bool_field(j, "has_graduated_access") {
            Some(v) => v,
            None => return None,
        };
        let id = match text_field(j, "id") {
            Some(v) => v,
            None => return None,
        };
        let is_blue_verified = match bool_field(j, "is_blue_verified") {
            Some(v) => v,
            None => return None,
        };
        let legacy = match j.get("legacy") {
            None => None,
            Some(Json::Null) => None,
            Some(v) => {
                match UserLegacy::from_json(v) {
                    Some(d) => Some(d),
                    None => return None,
                }
            },
        };
        let professional = match j.get("professional") {
            None => None,
            Some(Json::Null) => None,
            Some(v) => {
                match Professional::from_json(v) {
                    Some(d) => Some(d),
                    None => return None,
                }
            },
        };
        let profile_image_shape = match text_field(j, "profile_image_shape") {
            Some(v) => v,
            None => return None,
        };
        let rest_id = match text_field(j, "rest_id") {
            Some(v) => v,
            None => return None,
        };
        let tipjar_settings = match doc_map_field(j, "tipjar_settings") {
            Some(v) => v,
            None => return None,
        };
        Some(UserResult { typename, affiliates_highlighted_label, has_graduated_access, id, is_blue_verified, legacy, professional, profile_image_shape, rest_id, tipjar_settings })
    }
}

impl AffiliatesHighlightedLabel {
    /// `j` has the shape of a `AffiliatesHighlightedLabel`.
    pub open spec fn fits(j: Json) -> bool {
        &&& j is Object
        &&& (absent(j.field("label"@)) || Label::fits(j.field("label"@).unwrap()))
    }

    /// `x` holds what `j` holds, member by member.
    pub open spec fn decodes_to(j: Json, x: AffiliatesHighlightedLabel) -> bool {
        &&& j is Object
        &&& (if absent(j.field("label"@)) {
            x.label is None
        } else {
            x.label matches Some(y) && Label::decodes_to(j.field("label"@).unwrap(), y)
        })
    }

    /// Decodes `j`; `None` where some member has the wrong shape.
    pub fn from_json(j: &Json) -> (r: Option<AffiliatesHighlightedLabel>)
        ensures
            r is Some <==> AffiliatesHighlightedLabel::fits(*j),
            r matches Some(x) ==> AffiliatesHighlightedLabel::decodes_to(*j, x),
    {
        if !j.is_object() {
            return None;
        }
        let label = match j.get("label") {
            None => None,
            Some(Json::Null) => None,
            Some(v) => {
                match Label::from_json(v) {
                    Some(d) => Some(d),
                    None => return None,
                }
            },
        };
        Some(AffiliatesHighlightedLabel { label })
    }
}

impl Label {
    /// `j` has the shape of a `Label`.
    pub open spec fn fits(j: Json) -> bool {
        &&& j is Object
        &&& (absent(j.field("badge"@)) || Badge::fits(j.field("badge"@).unwrap()))
        &&& text_fits(j.field("description"@))
        &&& (absent(j.field("url"@)) || LabelUrl::fits(j.field("url"@).unwrap()))
        &&& text_fits(j.field("user_label_display_type"@))
        &&& text_fits(j.field("user_label_type"@))
    }

    /// `x` holds what `j` holds, member by member.
    pub open spec fn decodes_to(j: Json, x: Label) -> bool {
        &&& j is Object
        &&& (if absent(j.field("badge"@)) {
            x.badge is None
        } else {
            x.badge matches Some(y) && Badge::decodes_to(j.field("badge"@).unwrap(), y)
        })
        &&& text_is(j.field("description"@), x.description)
        &&& (if absent(j.field("url"@)) {
            x.url is None
        } else {
            x.url matches Some(y) && LabelUrl::decodes_to(j.field("url"@).unwrap(), y)
        })
        &&& text_is(j.field("user_label_display_type"@), x.user_label_display_type)
        &&& text_is(j.field("user_label_type"@), x.user_label_type)
    }

    /// Decodes `j`; `None` where some member has the wrong shape.
    pub fn from_json(j: &Json) -> (r: Option<Label>)
        ensures
            r is Some <==> Label::fits(*j),
            r matches Some(x) ==> Label::decodes_to(*j, x),
    {
        if !j.is_object() {
            return None;
        }
        let badge = match j.get("badge") {
            None => None,
            Some(Json::Null) => None,
            Some(v) => {
                match Badge::from_json(v) {
                    Some(d) => Some(d),
                    None => return None,
                }
            },
        };
        let description = match text_field(j, "description") {
            Some(v) => v,
            None => return None,
        };
        let url = match j.get("url") {
            None => None,
            Some(Json::Null) => None,
            Some(v) => {
                match LabelUrl::from_json(v) {
                    Some(d) => Some(d),
                    None => return None,
                }
            },
        };
        let user_label_display_type = match text_field(j, "user_label_display_type") {
            Some(v) => v,
            None => return None,
        };
        let user_label_type = match text_field(j, "user_label_type") {
            Some(v) => v,
            None => return None,
        };
        Some(Label { badge, description, url, user_label_display_type, user_label_type })
    }
}

impl Badge {
    /// `j` has the shape of a `Badge`.
    pub open spec fn fits(j: Json) -> bool {
        &&& j is Object
        &&& text_fits(j.field("url"@))
    }

    /// `x` holds what `j` holds, member by member.
    pub open spec fn decodes_to(j: Json, x: Badge) -> bool {
        &&& j is Object
        &&& text_is(j.field("url"@), x.url)
    }

    /// Decodes `j`; `None` where some member has the wrong shape.
    pub fn from_json(j: &Json) -> (r: Option<Badge>)
        ensures
            r is Some <==> Badge::fits(*j),
            r matches Some(x) ==> Badge::decodes_to(*j, x),
    {
        if !j.is_object() {
            return None;
        }
        let url = match text_field(j, "url") {
            Some(v) => v,
            None => return None,
        };
        Some(Badge { url })
    }
}

impl LabelUrl {
    /// `j` has the shape of a `LabelUrl`.
    pub open spec fn fits(j: Json) -> bool {
        &&& j is Object
        &&& text_fits(j.field("url"@))
        &&& text_fits(j.field("url_type"@))
    }

    /// `x` holds what `j` holds, member by member.
    pub open spec fn decodes_to(j: Json, x: LabelUrl) -> bool {
        &&& j is Object
        &&& text_is(j.field("url"@), x.url)
        &&& text_is(j.field("url_type"@), x.url_type)
    }

    /// Decodes `j`; `None` where some member has the wrong shape.
    pub fn from_json(j: &Json) -> (r: Option<LabelUrl>)
        ensures
            r is Some <==> LabelUrl::fits(*j),
            r matches Some(x) ==> LabelUrl::decodes_to(*j, x),
    {
        if !j.is_object() {
            return None;
        }
        let url = match text_field(j, "url") {
            Some(v) => v,
            None => return None,
        };
        let url_type = match text_field(j, "url_type") {
            Some(v) => v,
            None => return None,
        };
        Some(LabelUrl { url, url_type })
    }
}

impl UserLegacy {
    /// `j` has the shape of a `UserLegacy`.
    pub open spec fn fits(j: Json) -> bool {
        &&& j is Object
        &&& bool_fits(j.field("can_dm"@))
        &&& bool_fits(j.field("can_media_tag"@))
        &&& text_fits(j.field("created_at"@))
        &&& bool_fits(j.field("default_profile"@))
        &&& bool_fits(j.field("default_profile_image"@))
        &&& text_fits(j.field("description"@))
        &&& (absent(j.field("entities"@)) || UserEntities::fits(j.field("entities"@).unwrap()))
        &&& int_fits(j.field("fast_followers_count"@))
        &&& int_fits(j.field("favourites_count"@))
        &&& int_fits(j.field("followers_count"@))
        &&& bool_fits(j.field("following"@))
        &&& int_fits(j.field("friends_count"@))
        &&& bool_fits(j.field("has_custom_timelines"@))
        &&& bool_fits(j.field("is_translator"@))
        &&& int_fits(j.field("listed_count"@))
        &&& text_fits(j.field("location"@))
        &&& int_fits(j.field("media_count"@))
        &&& text_fits(j.field("name"@))
        &&& int_fits(j.field("normal_followers_count"@))
        &&& text_list_fits(j.field("pinned_tweet_ids_str"@))
        &&& bool_fits(j.field("possibly_sensitive"@))
        &&& text_fits(j.field("profile_banner_url"@))
        &&& text_fits(j.field("profile_image_url_https"@))
        &&& text_fits(j.field("profile_interstitial_type"@))
        &&& text_fits(j.field("screen_name"@))
        &&& int_fits(j.field("statuses_count"@))
        &&& text_fits(j.field("translator_type"@))
        &&& text_fits(j.field("url"@))
        &&& bool_fits(j.field("verified"@))
        &&& bool_fits(j.field("want_retweets"@))
        &&& text_list_fits(j.field("withheld_in_countries"@))
    }

    /// `x` holds what `j` holds, member by member.
    pub open spec fn decodes_to(j: Json, x: UserLegacy) -> bool {
        &&& j is Object
        &&& bool_is(j.field("can_dm"@), x.can_dm)
        &&& bool_is(j.field("can_media_tag"@), x.can_media_tag)
        &&& text_is(j.field("created_at"@), x.created_at)
        &&& bool_is(j.field("default_profile"@), x.default_profile)
        &&& bool_is(j.field("default_profile_image"@), x.default_profile_image)
        &&& text_is(j.field("description"@), x.description)
        &&& (if absent(j.field("entities"@)) {
            x.entities is None
        } else {
            x.entities matches Some(y) && UserEntities::decodes_to(j.field("entities"@).unwrap(), y)
        })
        &&& int_is(j.field("fast_followers_count"@), x.fast_followers_count)
        &&& int_is(j.field("favourites_count"@), x.favourites_count)
        &&& int_is(j.field("followers_count"@), x.followers_count)
        &&& bool_is(j.field("following"@), x.following)
        &&& int_is(j.field("friends_count"@), x.friends_count)
        &&& bool_is(j.field("has_custom_timelines"@), x.has_custom_timelines)
        &&& bool_is(j.field("is_translator"@), x.is_translator)
        &&& int_is(j.field("listed_count"@), x.listed_count)
        &&& text_is(j.field("location"@), x.location)
        &&& int_is(j.field("media_count"@), x.media_count)
        &&& text_is(j.field("name"@), x.name)
        &&& int_is(j.field("normal_followers_count"@), x.normal_followers_count)
        &&& text_list_is(j.field("pinned_tweet_ids_str"@), x.pinned_tweet_ids_str)
        &&& bool_is(j.field("possibly_sensitive"@), x.possibly_sensitive)
        &&& text_is(j.field("profile_banner_url"@), x.profile_banner_url)
        &&& text_is(j.field("profile_image_url_https"@), x.profile_image_url_https)
        &&& text_is(j.field("profile_interstitial_type"@), x.profile_interstitial_type)
        &&& text_is(j.field("screen_name"@), x.screen_name)
        &&& int_is(j.field("statuses_count"@), x.statuses_count)
        &&& text_is(j.field("translator_type"@), x.translator_type)
        &&& text_is(j.field("url"@), x.url)
        &&& bool_is(j.field("verified"@), x.verified)
        &&& bool_is(j.field("want_retweets"@), x.want_retweets)
        &&& text_list_is(j.field("withheld_in_countries"@), x.withheld_in_countries)
    }

    /// Decodes `j`; `None` where some member has the wrong shape.
    pub fn from_json(j: &Json) -> (r: Option<UserLegacy>)
        ensures
            r is Some <==> UserLegacy::fits(*j),
            r matches Some(x) ==> UserLegacy::decodes_to(*j, x),
    {
        if !j.is_object() {
            return None;
        }
        let can_dm = match bool_field(j, "can_dm") {
            Some(v) => v,
            None => return None,
        };
        let can_media_tag = match bool_field(j, "can_media_tag") {
            Some(v) => v,
            None => return None,
        };
        let created_at = match text_field(j, "created_at") {
            Some(v) => v,
            None => return None,
        };
        let default_profile = match bool_field(j, "default_profile") {
            Some(v) => v,
            None => return None,
        };
        let default_profile_image = match bool_field(j, "default_profile_image") {
            Some(v) => v,
            None => return None,
        };
        let description = match text_field(j, "description") {
            Some(v) => v,
            None => return None,
        };
        let entities = match j.get("entities") {
            None => None,
            Some(Json::Null) => None,
            Some(v) => {
                match UserEntities::from_json(v) {
                    Some(d) => Some(d),
                    None => return None,
                }
            },
        };
        let fast_followers_count = match int_field(j, "fast_followers_count") {
            Some(v) => v,
            None => return None,
        };
        let favourites_count = match int_field(j, "favourites_count") {
            Some(v) => v,
            None => return None,
        };
        let followers_count = match int_field(j, "followers_count") {
            Some(v) => v,
            None => return None,
        };
        let following = match bool_field(j, "following") {
            Some(v) => v,
            None => return None,
        };
        let friends_count = match int_field(j, "friends_count") {
            Some(v) => v,
            None => return None,
        };
        let has_custom_timelines = match bool_field(j, "has_custom_timelines") {
            Some(v) => v,
            None => return None,
        };
        let is_translator = match bool_field(j, "is_translator") {
            Some(v) => v,
            None => return None,
        };
        let listed_count = match int_field(j, "listed_count") {
            Some(v) => v,
            None => return None,
        };
        let location = match text_field(j, "location") {
            Some(v) => v,
            None => return None,
        };
        let media_count = match int_field(j, "media_count") {
            Some(v) => v,
            None => return None,
        };
        let name = match text_field(j, "name") {
            Some(v) => v,
            None => return None,
        };
        let normal_followers_count = match int_field(j, "normal_followers_count") {
            Some(v) => v,
            None => return None,
        };
        let pinned_tweet_ids_str = match text_list_field(j, "pinned_tweet_ids_str") {
            Some(v) => v,
            None => return None,
        };
        let possibly_sensitive = match bool_field(j, "possibly_sensitive") {
            Some(v) => v,
            None => return None,
        };
        let profile_banner_url = match text_field(j, "profile_banner_url") {
            Some(v) => v,
            None => return None,
        };
        let profile_image_url_https = match text_field(j, "profile_image_url_https") {
            Some(v) => v,
            None => return None,
        };
        let profile_interstitial_type = match text_field(j, "profile_interstitial_type") {
            Some(v) => v,
            None => return None,
        };
        let screen_name = match text_field(j, "screen_name") {
            Some(v) => v,
            None => return None,
        };
        let statuses_count = match int_field(j, "statuses_count") {
            Some(v) => v,
            None => return None,
        };
        let translator_type = match text_field(j, "translator_type") {
            Some(v) => v,
            None => return None,
        };
        let url = match text_field(j, "url") {
            Some(v) => v,
            None => return None,
        };
        let verified = match bool_field(j, "verified") {
            Some(v) => v,
            None => return None,
        };
        let want_retweets = match bool_field(j, "want_retweets") {
            Some(v) => v,
            None => return None,
        };
        let withheld_in_countries = match text_list_field(j, "withheld_in_countries") {
            Some(v) => v,
            None => return None,
        };
        Some(UserLegacy { can_dm, can_media_tag, created_at, default_profile, default_profile_image, description, entities, fast_followers_count, favourites_count, followers_count, following, friends_count, has_custom_timelines, is_translator, listed_count, location, media_count, name, normal_followers_count, pinned_tweet_ids_str, possibly_sensitive, profile_banner_url, profile_image_url_https, profile_interstitial_type, screen_name, statuses_count, translator_type, url, verified, want_retweets, withheld_in_countries })
    }
}

impl UserEntities {
    /// `j` has the shape of a `UserEntities`.
    pub open spec fn fits(j: Json) -> bool {
        &&& j is Object
        &&& (absent(j.field("description"@)) || Description::fits(j.field("description"@).unwrap()))
        &&& (absent(j.field("url"@)) || UrlEntity::fits(j.field("url"@).unwrap()))
    }

    /// `x` holds what `j` holds, member by member.
    pub open spec fn decodes_to(j: Json, x: UserEntities) -> bool {
        &&& j is Object
        &&& (if absent(j.field("description"@)) {
            x.description is None
        } else {
            x.description matches Some(y) && Description::decodes_to(j.field("description"@).unwrap(), y)
        })
        &&& (if absent(j.field("url"@)) {
            x.url is None
        } else {
            x.url matches Some(y) && UrlEntity::decodes_to(j.field("url"@).unwrap(), y)
        })
    }

    /// Decodes `j`; `None` where some member has the wrong shape.
    pub fn from_json(j: &Json) -> (r: Option<UserEntities>)
        ensures
            r is Some <==> UserEntities::fits(*j),
            r matches Some(x) ==> UserEntities::decodes_to(*j, x),
    {
        if !j.is_object() {
            return None;
        }
        let description = match j.get("description") {
            None => None,
            Some(Json::Null) => None,
            Some(v) => {
                match Description::from_json(v) {
                    Some(d) => Some(d),
                    None => return None,
                }
            },
        };
        let url = match j.get("url") {
            None => None,
            Some(Json::Null) => None,
            Some(v) => {
                match UrlEntity::from_json(v) {
                    Some(d) => Some(d),
                    None => return None,
                }
            },
        };
        Some(UserEntities { description, url })
    }
}

impl Description {
    /// `j` has the shape of a `Description`.
    pub open spec fn fits(j: Json) -> bool {
        &&& j is Object
        &&& (absent(j.field("urls"@)) || (j.field("urls"@).unwrap() is Array && UrlInfo::list_fits(j.field("urls"@).unwrap()->Array_0@)))
    }

    /// `x` holds what `j` holds, member by member.
    pub open spec fn decodes_to(j: Json, x: Description) -> bool {
        &&& j is Object
        &&& (if absent(j.field("urls"@)) {
            x.urls is None
        } else {
            x.urls matches Some(l) && j.field("urls"@).unwrap() is Array && UrlInfo::list_is(j.field("urls"@).unwrap()->Array_0@, l@)
        })
    }

    /// Decodes `j`; `None` where some member has the wrong shape.
    pub fn from_json(j: &Json) -> (r: Option<Description>)
        ensures
            r is Some <==> Description::fits(*j),
            r matches Some(x) ==> Description::decodes_to(*j, x),
    {
        if !j.is_object() {
            return None;
        }
        let urls = match j.get("urls") {
            None => None,
            Some(Json::Null) => None,
            Some(Json::Array(a)) => match UrlInfo::list_from_json(a) {
                Some(l) => Some(l),
                None => return None,
            },
            Some(_) => return None,
        };
        Some(Description { urls })
    }
}

impl UrlEntity {
    /// `j` has the shape of a `UrlEntity`.
    pub open spec fn fits(j: Json) -> bool {
        &&& j is Object
        &&& (absent(j.field("urls"@)) || (j.field("urls"@).unwrap() is Array && UrlInfo::list_fits(j.field("urls"@).unwrap()->Array_0@)))
    }

    /// `x` holds what `j` holds, member by member.
    pub open spec fn decodes_to(j: Json, x: UrlEntity) -> bool {
        &&& j is Object
        &&& (if absent(j.field("urls"@)) {
            x.urls is None
        } else {
            x.urls matches Some(l) && j.field("urls"@).unwrap() is Array && UrlInfo::list_is(j.field("urls"@).unwrap()->Array_0@, l@)
        })
    }

    /// Decodes `j`; `None` where some member has the wrong shape.
    pub fn from_json(j: &Json) -> (r: Option<UrlEntity>)
        ensures
            r is Some <==> UrlEntity::fits(*j),
            r matches Some(x) ==> UrlEntity::decodes_to(*j, x),
    {
        if !j.is_object() {
            return None;
        }
        let urls = match j.get("urls") {
            None => None,
            Some(Json::Null) => None,
            Some(Json::Array(a)) => match UrlInfo::list_from_json(a) {
                Some(l) => Some(l),
                None => return None,
            },
            Some(_) => return None,
        };
        Some(UrlEntity { urls })
    }
}

impl UrlInfo {
    /// `j` has the shape of a `UrlInfo`.
    pub open spec fn fits(j: Json) -> bool {
        &&& j is Object
        &&& text_fits(j.field("display_url"@))
        &&& text_fits(j.field("expanded_url"@))
        &&& int_list_fits(j.field("indices"@))
        &&& text_fits(j.field("url"@))
    }

    /// `x` holds what `j` holds, member by member.
    pub open spec fn decodes_to(j: Json, x: UrlInfo) -> bool {
        &&& j is Object
        &&& text_is(j.field("display_url"@), x.display_url)
        &&& text_is(j.field("expanded_url"@), x.expanded_url)
        &&& int_list_is(j.field("indices"@), x.indices)
        &&& text_is(j.field("url"@), x.url)
    }

    /// Decodes `j`; `None` where some member has the wrong shape.
    pub fn from_json(j: &Json) -> (r: Option<UrlInfo>)
        ensures
            r is Some <==> UrlInfo::fits(*j),
            r matches Some(x) ==> UrlInfo::decodes_to(*j, x),
    {
        if !j.is_object() {
            return None;
        }
        let display_url = match text_field(j, "display_url") {
            Some(v) => v,
            None => return None,
        };
        let expanded_url = match text_field(j, "expanded_url") {
            Some(v) => v,
            None => return None,
        };
        let indices = match int_list_field(j, "indices") {
            Some(v) => v,
            None => return None,
        };
        let url = match text_field(j, "url") {
            Some(v) => v,
            None => return None,
        };
        Some(UrlInfo { display_url, expanded_url, indices, url })
    }

    pub open spec fn list_fits(items: Seq<Json>) -> bool {
        forall|k: int| 0 <= k < items.len() ==> UrlInfo::fits(#[trigger] items[k])
    }

    pub open spec fn list_is(items: Seq<Json>, l: Seq<UrlInfo>) -> bool {
        l.len() == items.len() && forall|k: int|
            0 <= k < items.len() ==> UrlInfo::decodes_to(#[trigger] items[k], l[k])
    }

    pub fn list_from_json(a: &Vec<Json>) -> (r: Option<Vec<UrlInfo>>)
        ensures
            r is Some <==> UrlInfo::list_fits(a@),
            r matches Some(l) ==> UrlInfo::list_is(a@, l@),
    {
        let mut out: Vec<UrlInfo> = Vec::new();
        let mut i: usize = 0;
        while i < a.len()
            invariant
                i <= a@.len(),
                out@.len() == i,
                forall|k: int| 0 <= k < i ==> UrlInfo::fits(#[trigger] a@[k]),
                forall|k: int| 0 <= k < i ==> UrlInfo::decodes_to(#[trigger] a@[k], out@[k]),
            decreases a@.len() - i,
        {
            match UrlInfo::from_json(&a[i]) {
                Some(d) => out.push(d),
                None => return None,
            }
            i += 1;
        }
        Some(out)
    }
}

impl Professional {
    /// `j` has the shape of a `Professional`.
    pub open spec fn fits(j: Json) -> bool {
        &&& j is Object
        &&& (absent(j.field("category"@)) || (j.field("category"@).unwrap() is Array && Category::list_fits(j.field("category"@).unwrap()->Array_0@)))
        &&& text_fits(j.field("professional_type"@))
        &&& text_fits(j.field("rest_id"@))
    }

    /// `x` holds what `j` holds, member by member.
    pub open spec fn decodes_to(j: Json, x: Professional) -> bool {
        &&& j is Object
        &&& (if absent(j.field("category"@)) {
            x.category is None
        } else {
            x.category matches Some(l) && j.field("category"@).unwrap() is Array && Category::list_is(j.field("category"@).unwrap()->Array_0@, l@)
        })
        &&& text_is(j.field("professional_type"@), x.professional_type)
        &&& text_is(j.field("rest_id"@), x.rest_id)
    }

    /// Decodes `j`; `None` where some member has the wrong shape.
    pub fn from_json(j: &Json) -> (r: Option<Professional>)
        ensures
            r is Some <==> Professional::fits(*j),
            r matches Some(x) ==> Professional::decodes_to(*j, x),
    {
        if !j.is_object() {
            return None;
        }
        let category = match j.get("category") {
            None => None,
            Some(Json::Null) => None,
            Some(Json::Array(a)) => match Category::list_from_json(a) {
                Some(l) => Some(l),
                None => return None,
            },
            Some(_) => return None,
        };
        let professional_type = match text_field(j, "professional_type") {
            Some(v) => v,
            None => return None,
        };
        let rest_id = match text_field(j, "rest_id") {
            Some(v) => v,
            None => return None,
        };
        Some(Professional { category, professional_type, rest_id })
    }
}

impl Category {
    /// `j` has the shape of a `Category`.
    pub open spec fn fits(j: Json) -> bool {
        &&& j is Object
        &&& text_fits(j.field("icon_name"@))
        &&& int_fits(j.field("id"@))
        &&& text_fits(j.field("name"@))
    }

    /// `x` holds what `j` holds, member by member.
    pub open spec fn decodes_to(j: Json, x: Category) -> bool {
        &&& j is Object
        &&& text_is(j.field("icon_name"@), x.icon_name)
        &&& int_is(j.field("id"@), x.id)
        &&& text_is(j.field("name"@), x.name)
    }

    /// Decodes `j`; `None` where some member has the wrong shape.
    pub fn from_json(j: &Json) -> (r: Option<Category>)
        ensures
            r is Some <==> Category::fits(*j),
            r matches Some(x) ==> Category::decodes_to(*j, x),
    {
        if !j.is_object() {
            return None;
        }
        let icon_name = match text_field(j, "icon_name") {
            Some(v) => v,
            None => return None,
        };
        let id = match int_field(j, "id") {
            Some(v) => v,
            None => return None,
        };
        let name = match text_field(j, "name") {
            Some(v) => v,
            None => return None,
        };
        Some(Category { icon_name, id, name })
    }

    pub open spec fn list_fits(items: Seq<Json>) -> bool {
        forall|k: int| 0 <= k < items.len() ==> Category::fits(#[trigger] items[k])
    }

    pub open spec fn list_is(items: Seq<Json>, l: Seq<Category>) -> bool {
        l.len() == items.len() && forall|k: int|
            0 <= k < items.len() ==> Category::decodes_to(#[trigger] items[k], l[k])
    }

    pub fn list_from_json(a: &Vec<Json>) -> (r: Option<Vec<Category>>)
        ensures
            r is Some <==> Category::list_fits(a@),
            r matches Some(l) ==> Category::list_is(a@, l@),
    {
        let mut out: Vec<Category> = Vec::new();
        let mut i: usize = 0;
        while i < a.len()
            invariant
                i <= a@.len(),
                out@.len() == i,
                forall|k: int| 0 <= k < i ==> Category::fits(#[trigger] a@[k]),
                forall|k: int| 0 <= k < i ==> Category::decodes_to(#[trigger] a@[k], out@[k]),
            decreases a@.len() - i,
        {
            match Category::from_json(&a[i]) {
                Some(d) => out.push(d),
                None => return None,
            }
            i += 1;
        }
        Some(out)
    }
}

impl EditControl {
    /// `j` has the shape of a `EditControl`.
    pub open spec fn fits(j: Json) -> bool {
        &&& j is Object
        &&& text_list_fits(j.field("edit_tweet_ids"@))
        &&& text_fits(j.field("editable_until_msecs"@))
        &&& text_fits(j.field("edits_remaining"@))
        &&& bool_fits(j.field("is_edit_eligible"@))
    }

    /// `x` holds what `j` holds, member by member.
    pub open spec fn decodes_to(j: Json, x: EditControl) -> bool {
        &&& j is Object
        &&& text_list_is(j.field("edit_tweet_ids"@), x.edit_tweet_ids)
        &&& text_is(j.field("editable_until_msecs"@), x.editable_until_msecs)
        &&& text_is(j.field("edits_remaining"@), x.edits_remaining)
        &&& bool_is(j.field("is_edit_eligible"@), x.is_edit_eligible)
    }

    /// Decodes `j`; `None` where some member has the wrong shape.
    pub fn from_json(j: &Json) -> (r: Option<EditControl>)
        ensures
            r is Some <==> EditControl::fits(*j),
            r matches Some(x) ==> EditControl::decodes_to(*j, x),
    {
        if !j.is_object() {
            return None;
        }
        let edit_tweet_ids = match text_list_field(j, "edit_tweet_ids") {
            Some(v) => v,
            None => return None,
        };
        let editable_until_msecs = match text_field(j, "editable_until_msecs") {
            Some(v) => v,
            None => return None,
        };
        let edits_remaining = match text_field(j, "edits_remaining") {
            Some(v) => v,
            None => return None,
        };
        let is_edit_eligible = match bool_field(j, "is_edit_eligible") {
            Some(v) => v,
            None => return None,
        };
        Some(EditControl { edit_tweet_ids, editable_until_msecs, edits_remaining, is_edit_eligible })
    }
}

impl Legacy {
    /// `j` has the shape of a `Legacy`.
    pub open spec fn fits(j: Json) -> bool {
        &&& j is Object
        &&& int_fits(j.field("bookmark_count"@))
        &&& bool_fits(j.field("bookmarked"@))
        &&& text_fits(j.field("conversation_id_str"@))
        &&& text_fits(j.field("created_at"@))
        &&& int_list_fits(j.field("display_text_range"@))
        &&& (absent(j.field("entities"@)) || Entities::fits(j.field("entities"@).unwrap()))
        &&& int_fits(j.field("favorite_count"@))
        &&& bool_fits(j.field("favorited"@))
        &&& text_fits(j.field("full_text"@))
        &&& text_fits(j.field("id_str"@))
        &&& bool_fits(j.field("is_quote_status"@))
        &&& text_fits(j.field("lang"@))
        &&& int_fits(j.field("quote_count"@))
        &&& text_fits(j.field("quoted_status_id_str"@))
        &&& (absent(j.field("quoted_status_permalink"@)) || QuotedStatusPermalink::fits(j.field("quoted_status_permalink"@).unwrap()))
        &&& int_fits(j.field("reply_count"@))
        &&& int_fits(j.field("retweet_count"@))
        &&& bool_fits(j.field("retweeted"@))
        &&& text_fits(j.field("user_id_str"@))
    }

    /// `x` holds what `j` holds, member by member.
    pub open spec fn decodes_to(j: Json, x: Legacy) -> bool {
        &&& j is Object
        &&& int_is(j.field("bookmark_count"@), x.bookmark_count)
        &&& bool_is(j.field("bookmarked"@), x.bookmarked)
        &&& text_is(j.field("conversation_id_str"@), x.conversation_id_str)
        &&& text_is(j.field("created_at"@), x.created_at)
        &&& int_list_is(j.field("display_text_range"@), x.display_text_range)
        &&& (if absent(j.field("entities"@)) {
            x.entities is None
        } else {
            x.entities matches Some(y) && Entities::decodes_to(j.field("entities"@).unwrap(), y)
        })
        &&& int_is(j.field("favorite_count"@), x.favorite_count)
        &&& bool_is(j.field("favorited"@), x.favorited)
        &&& text_is(j.field("full_text"@), x.full_text)
        &&& text_is(j.field("id_str"@), x.id_str)
        &&& bool_is(j.field("is_quote_status"@), x.is_quote_status)
        &&& text_is(j.field("lang"@), x.lang)
        &&& int_is(j.field("quote_count"@), x.quote_count)
        &&& text_is(j.field("quoted_status_id_str"@), x.quoted_status_id_str)
        &&& (if absent(j.field("quoted_status_permalink"@)) {
            x.quoted_status_permalink is None
        } else {
            x.quoted_status_permalink matches Some(y) && QuotedStatusPermalink::decodes_to(j.field("quoted_status_permalink"@).unwrap(), y)
        })
        &&& int_is(j.field("reply_count"@), x.reply_count)
        &&& int_is(j.field("retweet_count"@), x.retweet_count)
        &&& bool_is(j.field("retweeted"@), x.retweeted)
        &&& text_is(j.field("user_id_str"@), x.user_id_str)
    }

    /// Decodes `j`; `None` where some member has the wrong shape.
    pub fn from_json(j: &Json) -> (r: Option<Legacy>)
        ensures
            r is Some <==> Legacy::fits(*j),
            r matches Some(x) ==> Legacy::decodes_to(*j, x),
    {
        if !j.is_object() {
            return None;
        }
        let bookmark_count = match int_field(j, "bookmark_count") {
            Some(v) => v,
            None => return None,
        };
        let bookmarked = match bool_field(j, "bookmarked") {
            Some(v) => v,
            None => return None,
        };
        let conversation_id_str = match text_field(j, "conversation_id_str") {
            Some(v) => v,
            None => return None,
        };
        let created_at = match text_field(j, "created_at") {
            Some(v) => v,
            None => return None,
        };
        let display_text_range = match int_list_field(j, "display_text_range") {
            Some(v) => v,
            None => return None,
        };
        let entities = match j.get("entities") {
            None => None,
            Some(Json::Null) => None,
            Some(v) => {
                match Entities::from_json(v) {
                    Some(d) => Some(d),
                    None => return None,
                }
            },
        };
        let favorite_count = match int_field(j, "favorite_count") {
            Some(v) => v,
            None => return None,
        };
        let favorited = match bool_field(j, "favorited") {
            Some(v) => v,
            None => return None,
        };
        let full_text = match text_field(j, "full_text") {
            Some(v) => v,
            None => return None,
        };
        let id_str = match text_field(j, "id_str") {
            Some(v) => v,
            None => return None,
        };
        let is_quote_status = match bool_field(j, "is_quote_status") {
            Some(v) => v,
            None => return None,
        };
        let lang = match text_field(j, "lang") {
            Some(v) => v,
            None => return None,
        };
        let quote_count = match int_field(j, "quote_count") {
            Some(v) => v,
            None => return None,
        };
        let quoted_status_id_str = match text_field(j, "quoted_status_id_str") {
            Some(v) => v,
            None => return None,
        };
        let quoted_status_permalink = match j.get("quoted_status_permalink") {
            None => None,
            Some(Json::Null) => None,
            Some(v) => {
                match QuotedStatusPermalink::from_json(v) {
                    Some(d) => Some(d),
                    None => return None,
                }
            },
        };
        let reply_count = match int_field(j, "reply_count") {
            Some(v) => v,
            None => return None,
        };
        let retweet_count = match int_field(j, "retweet_count") {
            Some(v) => v,
            None => return None,
        };
        let retweeted = match bool_field(j, "retweeted") {
            Some(v) => v,
            None => return None,
        };
        let user_id_str = match text_field(j, "user_id_str") {
            Some(v) => v,
            None => return None,
        };
        Some(Legacy { bookmark_count, bookmarked, conversation_id_str, created_at, display_text_range, entities, favorite_count, favorited, full_text, id_str, is_quote_status, lang, quote_count, quoted_status_id_str, quoted_status_permalink, reply_count, retweet_count, retweeted, user_id_str })
    }
}

impl Entities {
    /// `j` has the shape of a `Entities`.
    pub open spec fn fits(j: Json) -> bool {
        &&& j is Object
        &&& doc_list_fits(j.field("hashtags"@))
        &&& doc_list_fits(j.field("symbols"@))
        &&& doc_list_fits(j.field("timestamps"@))
        &&& (absent(j.field("urls"@)) || (j.field("urls"@).unwrap() is Array && UrlInfo::list_fits(j.field("urls"@).unwrap()->Array_0@)))
        &&& doc_list_fits(j.field("user_mentions"@))
    }

    /// `x` holds what `j` holds, member by member.
    pub open spec fn decodes_to(j: Json, x: Entities) -> bool {
        &&& j is Object
        &&& doc_list_is(j.field("hashtags"@), x.hashtags)
        &&& doc_list_is(j.field("symbols"@), x.symbols)
        &&& doc_list_is(j.field("timestamps"@), x.timestamps)
        &&& (if absent(j.field("urls"@)) {
            x.urls is None
        } else {
            x.urls matches Some(l) && j.field("urls"@).unwrap() is Array && UrlInfo::list_is(j.field("urls"@).unwrap()->Array_0@, l@)
        })
        &&& doc_list_is(j.field("user_mentions"@), x.user_mentions)
    }

    /// Decodes `j`; `None` where some member has the wrong shape.
    pub fn from_json(j: &Json) -> (r: Option<Entities>)
        ensures
            r is Some <==> Entities::fits(*j),
            r matches Some(x) ==> Entities::decodes_to(*j, x),
    {
        if !j.is_object() {
            return None;
        }
        let hashtags = match doc_list_field(j, "hashtags") {
            Some(v) => v,
            None => return None,
        };
        let symbols = match doc_list_field(j, "symbols") {
            Some(v) => v,
            None => return None,
        };
        let timestamps = match doc_list_field(j, "timestamps") {
            Some(v) => v,
            None => return None,
        };
        let urls = match j.get("urls") {
            None => None,
            Some(Json::Null) => None,
            Some(Json::Array(a)) => match UrlInfo::list_from_json(a) {
                Some(l) => Some(l),
                None => return None,
            },
            Some(_) => return None,
        };
        let user_mentions = match doc_list_field(j, "user_mentions") {
            Some(v) => v,
            None => return None,
        };
        Some(Entities { hashtags, symbols, timestamps, urls, user_mentions })
    }
}

impl QuotedStatusPermalink {
    /// `j` has the shape of a `QuotedStatusPermalink`.
    pub open spec fn fits(j: Json) -> bool {
        &&& j is Object
        &&& text_fits(j.field("display"@))
        &&& text_fits(j.field("expanded"@))
        &&& text_fits(j.field("url"@))
    }

    /// `x` holds what `j` holds, member by member.
    pub open spec fn decodes_to(j: Json, x: QuotedStatusPermalink) -> bool {
        &&& j is Object
        &&& text_is(j.field("display"@), x.display)
        &&& text_is(j.field("expanded"@), x.expanded)
        &&& text_is(j.field("url"@), x.url)
    }

    /// Decodes `j`; `None` where some member has the wrong shape.
    pub fn from_json(j: &Json) -> (r: Option<QuotedStatusPermalink>)
        ensures
            r is Some <==> QuotedStatusPermalink::fits(*j),
            r matches Some(x) ==> QuotedStatusPermalink::decodes_to(*j, x),
    {
        if !j.is_object() {
            return None;
        }
        let display = match text_field(j, "display") {
            Some(v) => v,
            None => return None,
        };
        let expanded = match text_field(j, "expanded") {
            Some(v) => v,
            None => return None,
        };
        let url = match text_field(j, "url") {
            Some(v) => v,
            None => return None,
        };
        Some(QuotedStatusPermalink { display, expanded, url })
    }
}

impl QuotedStatusResult {
    /// `j` has the shape of a `QuotedStatusResult`.
    pub open spec fn fits(j: Json) -> bool
        decreases j,
    {
        proof {
            lemma_field_smaller(j, "result"@);
        }
        &&& j is Object
        &&& (absent(j.field("result"@)) || TwitterResponse::fits(j.field("result"@).unwrap()))
    }

    /// `x` holds what `j` holds, member by member.
    pub open spec fn decodes_to(j: Json, x: QuotedStatusResult) -> bool
        decreases j,
    {
        proof {
            lemma_field_smaller(j, "result"@);
        }
        &&& j is Object
        &&& (if absent(j.field("result"@)) {
            x.result is None
        } else {
            x.result matches Some(y) && TwitterResponse::decodes_to(j.field("result"@).unwrap(), *y)
        })
    }

    /// Decodes `j`; `None` where some member has the wrong shape.
    pub fn from_json(j: &Json) -> (r: Option<QuotedStatusResult>)
        ensures
            r is Some <==> QuotedStatusResult::fits(*j),
            r matches Some(x) ==> QuotedStatusResult::decodes_to(*j, x),
        decreases j,
    {
        if !j.is_object() {
            return None;
        }
        let result = match j.get("result") {
            None => None,
            Some(Json::Null) => None,
            Some(v) => {
                proof {
                    lemma_field_smaller(*j, "result"@);
                }
                match TwitterResponse::from_json(v) {
                    Some(d) => Some(Box::new(d)),
                    None => return None,
                }
            },
        };
        Some(QuotedStatusResult { result })
    }
}

impl Views {
    /// `j` has the shape of a `Views`.
    pub open spec fn fits(j: Json) -> bool {
        &&& j is Object
        &&& text_fits(j.field("count"@))
        &&& text_fits(j.field("state"@))
    }

    /// `x` holds what `j` holds, member by member.
    pub open spec fn decodes_to(j: Json, x: Views) -> bool {
        &&& j is Object
        &&& text_is(j.field("count"@), x.count)
        &&& text_is(j.field("state"@), x.state)
    }

    /// Decodes `j`; `None` where some member has the wrong shape.
    pub fn from_json(j: &Json) -> (r: Option<Views>)
        ensures
            r is Some <==> Views::fits(*j),
            r matches Some(x) ==> Views::decodes_to(*j, x),
    {
        if !j.is_object() {
            return None;
        }
        let count = match text_field(j, "count") {
            Some(v) => v,
            None => return None,
        };
        let state = match text_field(j, "state") {
            Some(v) => v,
            None => return None,
        };
        Some(Views { count, state })
    }
}

// A tweet result nests through its quoted status, so its copy recurses
// through `duplicate` rather than through derived `Clone` impls.

impl TwitterResponse {
    fn duplicate(&self) -> (r: TwitterResponse)
        decreases self,
    {
        let quoted_status_result = match &self.quoted_status_result {
            Some(q) => Some(q.duplicate()),
            None => None,
        };
        TwitterResponse {
            typename: self.typename.clone(),
            core: self.core.clone(),
            edit_control: self.edit_control.clone(),
            is_translatable: self.is_translatable,
            legacy: self.legacy.clone(),
            quoted_status_result,
            rest_id: self.rest_id.clone(),
            source: self.source.clone(),
            unmention_data: self.unmention_data.clone(),
            views: self.views.clone(),
        }
    }
}

impl QuotedStatusResult {
    fn duplicate(&self) -> (r: QuotedStatusResult)
        decreases self,
    {
        let result = match &self.result {
            Some(t) => Some(Box::new(t.duplicate())),
            None => None,
        };
        QuotedStatusResult { result }
    }
}

impl Clone for TwitterResponse {
    fn clone(&self) -> Self {
        self.duplicate()
    }
}

impl Clone for QuotedStatusResult {
    fn clone(&self) -> Self {
        self.duplicate()
    }
}

// ---------------------------------------------------------------------------
// Timeline extraction
// ---------------------------------------------------------------------------

/// The tweet-result payload of a timeline entry, at
/// `content.itemContent.tweet_results.result`, where every hop is present and
/// the payload is not `null`.
pub open spec fn entry_payload(entry: Json) -> Option<Json> {
    match entry.field("content"@) {
        Some(content) => match content.field("itemContent"@) {
            Some(item) => match item.field("tweet_results"@) {
                Some(results) => match results.field("result"@) {
                    Some(Json::Null) => None,
                    Some(payload) => Some(payload),
                    None => None,
                },
                None => None,
            },
            None => None,
        },
        None => None,
    }
}

pub open spec fn is_add_entries(instruction: Json) -> bool {
    Json::text_of(instruction.field("type"@)) == Some("TimelineAddEntries"@)
}

/// The payloads of one instruction: those of its entries for an "add entries"
/// instruction, none for any other kind.
pub open spec fn instruction_payloads(instruction: Json) -> Seq<Json> {
    if is_add_entries(instruction) {
        match Json::items_of(instruction.field("entries"@)) {
            Some(entries) => entries.filter_map(|e: Json| entry_payload(e)),
            None => Seq::empty(),
        }
    } else {
        Seq::empty()
    }
}

pub open spec fn payloads_of(instructions: Seq<Json>) -> Seq<Json>
    decreases instructions.len(),
{
    if instructions.len() == 0 {
        Seq::empty()
    } else {
        payloads_of(instructions.drop_last()) + instruction_payloads(instructions.last())
    }
}

/// The instructions at `data.home.home_timeline_urt.instructions`, or none.
pub open spec fn instructions_of(doc: Json) -> Seq<Json> {
    let timeline = match doc.field("data"@) {
        Some(data) => match data.field("home"@) {
            Some(home) => home.field("home_timeline_urt"@),
            None => None,
        },
        None => None,
    };
    match timeline {
        Some(t) => match Json::items_of(t.field("instructions"@)) {
            Some(a) => a,
            None => Seq::empty(),
        },
        None => Seq::empty(),
    }
}

/// Every tweet-result payload of a home-timeline document, in source order.
pub open spec fn timeline_payloads(doc: Json) -> Seq<Json> {
    payloads_of(instructions_of(doc))
}

/// The payloads that decode as tweet results, in order.
pub open spec fn decodable(payloads: Seq<Json>) -> Seq<Json> {
    payloads.filter_map(|p: Json| if TwitterResponse::fits(p) { Some(p) } else { None })
}

/// `out` holds, in order, one decoded tweet result per decodable payload.
pub open spec fn decodes_all(payloads: Seq<Json>, out: Seq<TwitterResponse>) -> bool {
    let kept = decodable(payloads);
    out.len() == kept.len() && forall|k: int|
        0 <= k < kept.len() ==> TwitterResponse::decodes_to(#[trigger] kept[k], out[k])
}

fn entry_payload_of(entry: &Json) -> (r: Option<&Json>)
    ensures
        deref_json(r) == entry_payload(*entry),
{
    let content = match entry.get("content") {
        Some(c) => c,
        None => return None,
    };
    let item = match content.get("itemContent") {
        Some(i) => i,
        None => return None,
    };
    let results = match item.get("tweet_results") {
        Some(t) => t,
        None => return None,
    };
    match results.get("result") {
        Some(payload) => if payload.is_null() {
            None
        } else {
            Some(payload)
        },
        None => None,
    }
}

fn instructions_in(doc: &Json) -> (r: Option<&Vec<Json>>)
    ensures
        match r {
            Some(a) => a@ == instructions_of(*doc),
            None => instructions_of(*doc) == Seq::<Json>::empty(),
        },
{
    let data = match doc.get("data") {
        Some(d) => d,
        None => return None,
    };
    let home = match data.get("home") {
        Some(h) => h,
        None => return None,
    };
    let timeline = match home.get("home_timeline_urt") {
        Some(t) => t,
        None => return None,
    };
    match timeline.get("instructions") {
        Some(Json::Array(a)) => Some(a),
        _ => None,
    }
}

fn is_add_entries_instruction(instruction: &Json) -> (r: bool)
    ensures
        r == is_add_entries(*instruction),
{
    let expected = String::from_str("TimelineAddEntries");
    match instruction.get("type") {
        Some(Json::Str(t)) => *t == expected,
        _ => false,
    }
}

/// Appending one payload appends it to the decodable ones exactly when it decodes.
proof fn lemma_decodable_push(payloads: Seq<Json>, p: Json)
    ensures
        decodable(payloads.push(p)) == if TwitterResponse::fits(p) {
            decodable(payloads).push(p)
        } else {
            decodable(payloads)
        },
{
    assert(payloads.push(p).drop_last() =~= payloads);
    assert(payloads.push(p).last() == p);
    if TwitterResponse::fits(p) {
        assert(decodable(payloads) + seq![p] =~= decodable(payloads).push(p));
    }
}

/// Decodes every tweet result of a home-timeline document, in source order.
///
/// Never fails: a document without the expected structure yields an empty list,
/// instructions of other kinds are ignored, and an entry whose payload does not
/// decode is dropped while the entries after it are still decoded.
pub fn extract_timeline_entries(doc: &Json) -> (r: Vec<TwitterResponse>)
    ensures
        decodes_all(timeline_payloads(*doc), r@),
{
    let mut out: Vec<TwitterResponse> = Vec::new();
    let instructions = match instructions_in(doc) {
        Some(a) => a,
        None => return out,
    };
    let ghost mut seen: Seq<Json> = Seq::empty();
    let mut i: usize = 0;
    while i < instructions.len()
        invariant
            i <= instructions@.len(),
            instructions@ == instructions_of(*doc),
            seen == payloads_of(instructions@.take(i as int)),
            decodes_all(seen, out@),
        decreases instructions@.len() - i,
    {
        let instruction = &instructions[i];
        let ghost start = seen;
        assert(instructions@.take(i + 1).drop_last() =~= instructions@.take(i as int));
        if is_add_entries_instruction(instruction) {
            if let Some(Json::Array(entries)) = instruction.get("entries") {
                let mut j: usize = 0;
                while j < entries.len()
                    invariant
                        j <= entries@.len(),
                        seen == start + entries@.take(j as int).filter_map(
                            |e: Json| entry_payload(e),
                        ),
                        decodes_all(seen, out@),
                    decreases entries@.len() - j,
                {
                    proof {
                        entries@.lemma_filter_map_take_succ(|e: Json| entry_payload(e), j as int);
                    }
                    if let Some(payload) = entry_payload_of(&entries[j]) {
                        proof {
                            lemma_decodable_push(seen, *payload);
                        }
                        if let Some(tweet) = TwitterResponse::from_json(payload) {
                            out.push(tweet);
                        }
                        proof {
                            seen = seen.push(*payload);
                        }
                        assert(decodes_all(seen, out@));
                    }
                    assert(seen =~= start + entries@.take(j + 1).filter_map(
                        |e: Json| entry_payload(e),
                    ));
                    j += 1;
                }
                assert(entries@.take(entries@.len() as int) =~= entries@);
            } else {
                assert(seen =~= start + Seq::<Json>::empty());
            }
        } else {
            assert(seen =~= start + Seq::<Json>::empty());
        }
        assert(seen == payloads_of(instructions@.take(i + 1)));
        i += 1;
    }
    assert(instructions@.take(instructions@.len() as int) =~= instructions@);
    out
}

/// Decoding distributes over concatenation of payload lists.
pub proof fn lemma_decodable_concat(a: Seq<Json>, b: Seq<Json>)
    ensures
        decodable(a + b) == decodable(a) + decodable(b),
    decreases b.len(),
{
    if b.len() == 0 {
        assert(a + b =~= a);
        assert(decodable(a) + decodable(b) =~= decodable(a));
    } else {
        lemma_decodable_concat(a, b.drop_last());
        assert((a + b).drop_last() =~= a + b.drop_last());
        assert((a + b).last() == b.last());
        let tail = if TwitterResponse::fits(b.last()) {
            seq![b.last()]
        } else {
            Seq::empty()
        };
        assert(decodable(a + b) =~= decodable(a + b.drop_last()) + tail);
        assert(decodable(b) =~= decodable(b.drop_last()) + tail);
        assert(decodable(a) + decodable(b) =~= decodable(a) + decodable(b.drop_last()) + tail);
    }
}

/// A payload that fails to decode is left out, and neither what precedes nor
/// what follows it is lost or reordered.
pub proof fn lemma_bad_payload_skipped(before: Seq<Json>, bad: Json, after: Seq<Json>)
    requires
        !TwitterResponse::fits(bad),
    ensures
        decodable(before + seq![bad] + after) == decodable(before) + decodable(after),
{
    lemma_decodable_concat(before + seq![bad], after);
    lemma_decodable_push(before, bad);
    assert(before + seq![bad] =~= before.push(bad));
}

/// A payload that decodes is kept in its place between its neighbours.
pub proof fn lemma_good_payload_kept(before: Seq<Json>, good: Json, after: Seq<Json>)
    requires
        TwitterResponse::fits(good),
    ensures
        decodable(before + seq![good] + after) == decodable(before) + seq![good] + decodable(
            after,
        ),
{
    lemma_decodable_concat(before + seq![good], after);
    lemma_decodable_push(before, good);
    assert(before + seq![good] =~= before.push(good));
    assert(decodable(before).push(good) =~= decodable(before) + seq![good]);
}

// ---------------------------------------------------------------------------
// Request address
// ---------------------------------------------------------------------------

/// What `urlencoding::encode` makes of a text.
pub uninterp spec fn url_encoded(s: Seq<char>) -> Seq<char>;

/// Relies on `urlencoding::encode`: percent-encodes each UTF-8 byte of the text
/// but ASCII letters, digits and `-`, `_`, `.`, `~`; the result depends on the
/// text alone, and an empty text stays empty.
#[verifier::external_body]
fn url_encode(s: &str) -> (r: String)
    ensures
        r@ == url_encoded(s@),
        s@.len() == 0 ==> r@.len() == 0,
{
    urlencoding::encode(s).into_owned()
}

/// The home-timeline query address from already percent-encoded `variables`
/// and `features` parameters.
pub fn home_timeline_url_from_encoded(variables: &str, features: &str) -> (r: String)
    ensures
        r@ == "https://x.com/i/api/graphql/HJFjzBgCs16TqxewQOeLNg/HomeTimeline?variables="@
            + variables@ + "&features="@ + features@,
{
    let mut url = String::from_str(
        "https://x.com/i/api/graphql/HJFjzBgCs16TqxewQOeLNg/HomeTimeline?variables=",
    );
    url.append(variables);
    url.append("&features=");
    url.append(features);
    url
}

/// The home-timeline query address for the given `variables` and `features`
/// JSON texts, each percent-encoded into its query parameter.
pub fn home_timeline_url(variables: &str, features: &str) -> (r: String)
    ensures
        r@ == "https://x.com/i/api/graphql/HJFjzBgCs16TqxewQOeLNg/HomeTimeline?variables="@
            + url_encoded(variables@) + "&features="@ + url_encoded(features@),
{
    let encoded_variables = url_encode(variables);
    let encoded_features = url_encode(features);
    home_timeline_url_from_encoded(encoded_variables.as_str(), encoded_features.as_str())
}

} // verus!
