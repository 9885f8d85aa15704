//! Data exchanged with a MISP instance by the tools of the MISP-backed server:
//! taxonomies, tags, organisations, roles and search filters. These are plain
//! records; the MISP API reports some booleans leniently, which
//! `deserialize_bool_or_empty_string` reads.
use vstd::prelude::*;
use crate::error::McpError;
use crate::json::JsonValue;

verus! {

/// How a lenient boolean reads: a boolean as itself, `null` and the empty
/// string as absent, and the strings `true`, `false`, `1` and `0`.
pub open spec fn lenient_bool(v: JsonValue) -> Option<Option<bool>> {
    match v {
        JsonValue::Bool(b) => Some(Some(b)),
        JsonValue::Null => Some(None),
        JsonValue::Str(s) => if s@ == ""@ {
            Some(None)
        } else if s@ == "true"@ || s@ == "1"@ {
            Some(Some(true))
        } else if s@ == "false"@ || s@ == "0"@ {
            Some(Some(false))
        } else {
            None
        },
        _ => None,
    }
}

/// Reads a boolean that the MISP API may send as a string or as an empty
/// string; any other value is a serialization error.
pub fn deserialize_bool_or_empty_string(v: &JsonValue) -> (r: Result<Option<bool>, McpError>)
    ensures
        r matches Ok(b) ==> lenient_bool(*v) == Some(b),
        r is Err ==> lenient_bool(*v) is None,
        r matches Err(e) ==> e is SerializationError,
{
    match v {
        JsonValue::Bool(b) => Ok(Some(*b)),
        JsonValue::Null => Ok(None),
        JsonValue::Str(s) => {
            if *s == String::from_str("") {
                Ok(None)
            } else if *s == String::from_str("true") || *s == String::from_str("1") {
                Ok(Some(true))
            } else if *s == String::from_str("false") || *s == String::from_str("0") {
                Ok(Some(false))
            } else {
                let mut message = String::from_str("expected a boolean, empty string, or boolean as string, found ");
                message.append(s.as_str());
                Err(McpError::SerializationError { message })
            }
        },
        _ => Err(McpError::SerializationError {
            message: String::from_str("expected a boolean, empty string, or boolean as string"),
        }),
    }
}

/// A taxonomy.
#[derive(Debug, Clone)]
pub struct Taxonomy {
    pub id: String,
    pub namespace: String,
    pub description: String,
    pub version: Option<String>,
    pub enabled: Option<bool>,
    pub exclusive: Option<bool>,
    pub required: Option<bool>,
    pub highlighted: Option<bool>,
}

/// One taxonomy of the taxonomy list, with its tag counts.
#[derive(Debug, Clone)]
pub struct TaxonomyEntry {
    pub taxonomy: Taxonomy,
    pub total_count: i32,
    pub current_count: i32,
}

/// A predicate of a taxonomy.
#[derive(Debug, Clone)]
pub struct TaxonomyPredicate {
    pub id: String,
    pub taxonomy_id: String,
    pub value: String,
    pub expanded: Option<String>,
    pub colour: Option<String>,
    pub description: Option<String>,
    pub exclusive: Option<bool>,
    pub numerical_value: Option<i32>,
}

/// One entry of a single taxonomy.
#[derive(Debug, Clone)]
pub struct TaxonomyEntryById {
    pub tag: String,
    pub expanded: String,
    pub description: String,
    pub exclusive_predicate: bool,
    pub existing_tag: bool,
}

/// A taxonomy with its entries.
#[derive(Debug, Clone)]
pub struct GetTaxonomyByIdResponse {
    pub taxonomy: Taxonomy,
    pub entries: Vec<TaxonomyEntryById>,
}

/// A tag.
#[derive(Debug, Clone)]
pub struct Tag {
    pub id: Option<String>,
    pub name: Option<String>,
    pub colour: Option<String>,
    pub exportable: Option<bool>,
    pub user_id: Option<bool>,
    pub hide_tag: Option<bool>,
    pub numerical_value: Option<String>,
    pub is_favourite: Option<bool>,
    pub is_custom_galaxy: Option<bool>,
    pub is_galaxy: Option<bool>,
    pub local_only: Option<bool>,
    pub org_id: Option<String>,
    pub count: Option<i32>,
    pub attribute_count: Option<i32>,
    pub favourite: Option<bool>,
    pub inherited: Option<i32>,
}

/// The tag list.
#[derive(Debug)]
pub struct GetTagsResponseWrapper {
    pub tag: Vec<Tag>,
}

/// One result of a tag search, with the taxonomy it comes from.
#[derive(Debug, Clone)]
pub struct SearchTagEntry {
    pub tag: Tag,
    pub taxonomy: Option<Taxonomy>,
    pub taxonomy_predicate: Option<TaxonomyPredicate>,
}

/// An organisation.
#[derive(Debug, Clone)]
pub struct Organisation {
    pub id: Option<String>,
    pub name: Option<String>,
    pub date_created: Option<String>,
    pub date_modified: Option<String>,
    pub description: Option<String>,
    pub org_type: Option<String>,
    pub nationality: Option<String>,
    pub sector: Option<String>,
    pub created_by: Option<String>,
    pub uuid: Option<String>,
    pub contacts: Option<String>,
    pub local: Option<bool>,
    pub restricted_to_domain: Option<Vec<String>>,
    pub landingpage: Option<String>,
    pub user_count: Option<String>,
    pub created_by_email: Option<String>,
}

/// One organisation of the organisation list.
#[derive(Debug, Clone)]
pub struct OrganisationEntry {
    pub organisation: Organisation,
}

/// A role and its permissions.
#[derive(Debug, Clone)]
pub struct Role {
    pub id: String,
    pub name: String,
    pub perm_add: Option<bool>,
    pub perm_modify: Option<bool>,
    pub perm_modify_org: Option<bool>,
    pub perm_publish: Option<bool>,
    pub perm_delegate: Option<bool>,
    pub perm_sync: Option<bool>,
    pub perm_admin: Option<bool>,
    pub perm_audit: Option<bool>,
    pub perm_auth: Option<bool>,
    pub perm_site_admin: Option<bool>,
    pub perm_regexp_access: Option<bool>,
    pub perm_tagger: Option<bool>,
    pub perm_template: Option<bool>,
    pub perm_sharing_group: Option<bool>,
    pub perm_tag_editor: Option<bool>,
    pub perm_sighting: Option<bool>,
    pub perm_object_template: Option<bool>,
    pub perm_publish_zmq: Option<bool>,
    pub perm_publish_kafka: Option<bool>,
    pub perm_decaying: Option<bool>,
    pub perm_galaxy_editor: Option<bool>,
    pub default_role: Option<bool>,
    pub memory_limit: Option<String>,
    pub max_execution_time: Option<String>,
    pub restricted_to_site_admin: Option<bool>,
    pub enforce_rate_limit: Option<bool>,
    pub rate_limit_count: Option<String>,
    pub permission: Option<String>,
    pub permission_description: Option<String>,
    pub created: Option<String>,
    pub modified: Option<String>,
    pub perm_warninglist: Option<bool>,
    pub perm_view_feed_correlations: Option<bool>,
    pub perm_analyst_data: Option<bool>,
    pub perm_skip_otp: Option<bool>,
    pub perm_server_sign: Option<bool>,
    pub perm_sync_internal: Option<bool>,
}

/// A server known to the MISP instance.
#[derive(Debug, Clone)]
pub struct ServerInfo {
    pub id: Option<String>,
    pub name: Option<String>,
    pub url: Option<String>,
    pub push_rules: Option<String>,
}

/// The position of a dashboard widget.
#[derive(Debug, Clone)]
pub struct WidgetPosition {
    pub x: String,
    pub y: String,
    pub width: String,
    pub height: String,
}

/// A dashboard widget.
#[derive(Debug, Clone)]
pub struct DashboardWidget {
    pub widget: String,
    pub position: WidgetPosition,
}

/// A user's homepage setting.
#[derive(Debug, Clone)]
pub struct Homepage {
    pub path: String,
}

/// A threat level.
#[derive(Debug, Clone)]
pub struct ThreatLevel {
    pub id: Option<String>,
    pub name: Option<String>,
    pub description: Option<String>,
}

/// The filter of a galaxy search.
#[derive(Debug, Clone)]
pub struct SearchGalaxiesRequest {
    pub value: String,
}

/// The filter of a warninglist search.
#[derive(Debug, Clone)]
pub struct SearchWarninglistRequest {
    pub value: String,
}

/// The type of the values of a warninglist.
#[derive(Debug, Clone)]
pub struct WarninglistType {
    pub id: Option<String>,
    pub type_: Option<String>,
    pub warninglist_id: Option<String>,
}

/// The filter of a collection search.
#[derive(Debug, Clone)]
pub struct CollectionFilterBody {
    pub uuid: Option<String>,
    pub type_: Option<String>,
    pub name: Option<String>,
}

} // verus!
