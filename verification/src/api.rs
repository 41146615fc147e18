//! The addresses under which the record store answers.

use vstd::prelude::*;
use vstd::utf8::encode_utf8;
use crate::text::{
    chars_of, decimal, decimal_string, has_prefix, signed_decimal, signed_decimal_string,
    starts_with, trim_leading, trim_start,
};

verus! {

/// The path of the data interface below an environment's address.
pub const API_PATH: &'static str = "/api/data/v9.2";

/// What a job is asked to tell of itself.
pub const SYSTEM_JOB_FIELDS: &'static str =
    "asyncoperationid,name,operationtype,statuscode,statecode,startedon,completedon,createdon,_createdby_value,message,friendlymessage,_regardingobjectid_value";

/// Whether a byte stands for itself in a query: a letter or a digit of
/// ASCII, a hyphen, a full stop, an underscore or a tilde.
pub open spec fn is_unreserved(b: u8) -> bool {
    ||| 0x30 <= b <= 0x39
    ||| 0x41 <= b <= 0x5a
    ||| 0x61 <= b <= 0x7a
    ||| b == 0x2d
    ||| b == 0x2e
    ||| b == 0x5f
    ||| b == 0x7e
}

/// The digit `d` of base sixteen, in upper case.
pub open spec fn hex_digit(d: u8) -> char {
    if d < 10 {
        (0x30 + d) as char
    } else {
        (0x41 + d - 10) as char
    }
}

/// A byte as it is written in a query: itself where it is unreserved, else
/// a percent sign and its two digits of base sixteen.
pub open spec fn percent_encoded_byte(b: u8) -> Seq<char> {
    if is_unreserved(b) {
        seq![b as char]
    } else {
        seq!['%', hex_digit(b / 16), hex_digit(b % 16)]
    }
}

/// Bytes as they are written in a query, one after the other.
pub open spec fn percent_encoded(bytes: Seq<u8>) -> Seq<char>
    decreases bytes.len(),
{
    if bytes.len() == 0 {
        Seq::empty()
    } else {
        percent_encoded(bytes.drop_last()) + percent_encoded_byte(bytes.last())
    }
}

/// `urlencoding::encode`: the text with every byte of its UTF-8 form that
/// is not unreserved written as a percent sign and two upper-case digits of
/// base sixteen, and every other byte as it is.
#[verifier::external_body]
fn url_encode(text: &str) -> (out: String)
    ensures
        out@ == percent_encoded(encode_utf8(text@)),
{
    urlencoding::encode(text).into_owned()
}

/// The address of the data interface of an environment.
pub fn api_url(environment_url: &str) -> (out: String)
    ensures
        out@ == environment_url@ + API_PATH@,
{
    let mut out = String::from_str(environment_url);
    out.append(API_PATH);
    out
}

/// The address that a request goes to: the endpoint itself where it begins
/// with `http`, else the endpoint, without the slashes at its start, below
/// the data interface of the environment.
pub open spec fn request_url_of(environment_url: Seq<char>, endpoint: Seq<char>) -> Seq<char> {
    if has_prefix(endpoint, "http"@) {
        endpoint
    } else {
        environment_url + API_PATH@ + "/"@ + trim_start(endpoint, '/')
    }
}

/// The address that a request goes to.
pub fn request_url(environment_url: &str, endpoint: &str) -> (out: String)
    ensures
        out@ == request_url_of(environment_url@, endpoint@),
{
    let chars = chars_of(endpoint);
    let scheme = chars_of("http");
    if starts_with(&chars, &scheme) {
        String::from_str(endpoint)
    } else {
        let mut out = api_url(environment_url);
        out.append("/");
        out.append(trim_leading(endpoint, '/').as_str());
        out
    }
}

/// The scope for which a token is asked that opens an environment.
pub fn token_scope(environment_url: &str) -> (out: String)
    ensures
        out@ == environment_url@ + "/.default"@,
{
    let mut out = String::from_str(environment_url);
    out.append("/.default");
    out
}

/// The endpoint that runs a raw query against an entity set: the text of
/// the query is percent-encoded.
pub fn fetch_xml_endpoint(entity_set_name: &str, fetch_xml: &str) -> (out: String)
    ensures
        out@ == entity_set_name@ + "?fetchXml="@ + percent_encoded(encode_utf8(fetch_xml@)),
{
    let mut out = String::from_str(entity_set_name);
    out.append("?fetchXml=");
    out.append(url_encode(fetch_xml).as_str());
    out
}

/// The endpoint of one record of an entity set.
pub fn record_endpoint(entity_set_name: &str, id: &str) -> (out: String)
    ensures
        out@ == entity_set_name@ + "("@ + id@ + ")"@,
{
    let mut out = String::from_str(entity_set_name);
    out.append("(");
    out.append(id);
    out.append(")");
    out
}

/// The endpoint that counts the records in which an attribute has a value.
pub fn attribute_count_endpoint(entity_set_name: &str, attribute_name: &str) -> (out: String)
    ensures
        out@ == entity_set_name@ + "/$count?$filter="@ + attribute_name@ + " ne null"@,
{
    let mut out = String::from_str(entity_set_name);
    out.append("/$count?$filter=");
    out.append(attribute_name);
    out.append(" ne null");
    out
}

/// The query for the newest jobs: at most `top` of them, and only those
/// that meet `filter` where one is given and is not empty.
pub open spec fn system_jobs_query_of(top: nat, filter: Option<Seq<char>>) -> Seq<char> {
    "asyncoperations?$select="@ + SYSTEM_JOB_FIELDS@ + "&$orderby=createdon desc&$top="@ + decimal(
        top,
    ) + (match filter {
        Some(f) => if f.len() > 0 {
            "&$filter="@ + f
        } else {
            Seq::empty()
        },
        None => Seq::empty(),
    })
}

/// The query for the newest jobs.
pub fn system_jobs_query(top: usize, filter: Option<&str>) -> (out: String)
    ensures
        out@ == system_jobs_query_of(
            top as nat,
            match filter {
                Some(f) => Some(f@),
                None => None,
            },
        ),
{
    let mut out = String::from_str("asyncoperations?$select=");
    out.append(SYSTEM_JOB_FIELDS);
    out.append("&$orderby=createdon desc&$top=");
    out.append(decimal_string(top as u64).as_str());
    let ghost head = out@;
    if let Some(f) = filter {
        if !f.is_empty() {
            out.append("&$filter=");
            out.append(f);
        }
    }
    proof {
        assert(out@ =~= system_jobs_query_of(
            top as nat,
            match filter {
                Some(f) => Some(f@),
                None => None,
            },
        ));
    }
    out
}

/// The endpoint of the global option sets.
pub const GLOBAL_OPTION_SETS_ENDPOINT: &'static str =
    "GlobalOptionSetDefinitions?$select=Name,DisplayName,Description,IsGlobal,OptionSetType,MetadataId";

/// The endpoint of the entity definitions.
pub const ENTITIES_ENDPOINT: &'static str =
    "EntityDefinitions?$select=LogicalName,DisplayName,SchemaName,Description,PrimaryIdAttribute,PrimaryNameAttribute,EntitySetName,IsCustomEntity,IsManaged,ObjectTypeCode,MetadataId";

/// The endpoint of the solutions, in the order of their friendly names.
pub const SOLUTIONS_ENDPOINT: &'static str =
    "solutions?$select=solutionid,uniquename,friendlyname,version,ismanaged,publisherid,description,installedon&$orderby=friendlyname";

/// The endpoint of the users that are enabled, in the order of their names.
pub const USERS_ENDPOINT: &'static str =
    "systemusers?$select=systemuserid,fullname,domainname,internalemailaddress,isdisabled,title,createdon&$expand=businessunitid($select=businessunitid,name)&$filter=isdisabled eq false&$orderby=fullname";

/// The endpoint of all users, disabled ones too, in the order of their names.
pub const ALL_USERS_ENDPOINT: &'static str =
    "systemusers?$select=systemuserid,fullname,domainname,internalemailaddress,isdisabled,title,createdon&$expand=businessunitid($select=businessunitid,name)&$orderby=fullname";

/// The address of the service that tells which environments there are.
pub const DISCOVERY_URL: &'static str =
    "https://globaldisco.crm.dynamics.com/api/discovery/v2.0/Instances";

/// The scope for which a token is asked that opens the discovery service.
pub const DISCOVERY_SCOPE: &'static str =
    "https://globaldisco.crm.dynamics.com/.default";

/// The endpoint of the definition of one entity.
pub fn entity_endpoint(logical_name: &str) -> (out: String)
    ensures
        out@ == "EntityDefinitions(LogicalName='"@ + logical_name@ + "')?$select=LogicalName,DisplayName,SchemaName,Description,PrimaryIdAttribute,PrimaryNameAttribute,EntitySetName,IsCustomEntity,IsManaged,ObjectTypeCode,MetadataId"@,
{
    let mut out = String::from_str("EntityDefinitions(LogicalName='");
    out.append(logical_name);
    out.append("')?$select=LogicalName,DisplayName,SchemaName,Description,PrimaryIdAttribute,PrimaryNameAttribute,EntitySetName,IsCustomEntity,IsManaged,ObjectTypeCode,MetadataId");
    out
}

/// The endpoint of the attributes of an entity.
pub fn entity_attributes_endpoint(logical_name: &str) -> (out: String)
    ensures
        out@ == "EntityDefinitions(LogicalName='"@ + logical_name@ + "')/Attributes?$select=LogicalName,DisplayName,SchemaName,AttributeType,AttributeTypeName,RequiredLevel,IsCustomAttribute,IsPrimaryId,IsPrimaryName,Description,MetadataId"@,
{
    let mut out = String::from_str("EntityDefinitions(LogicalName='");
    out.append(logical_name);
    out.append("')/Attributes?$select=LogicalName,DisplayName,SchemaName,AttributeType,AttributeTypeName,RequiredLevel,IsCustomAttribute,IsPrimaryId,IsPrimaryName,Description,MetadataId");
    out
}

/// The endpoint of the relationships in which an entity is the one of many.
pub fn one_to_many_endpoint(logical_name: &str) -> (out: String)
    ensures
        out@ == "EntityDefinitions(LogicalName='"@ + logical_name@ + "')/OneToManyRelationships?$select=SchemaName,ReferencingEntity,ReferencingAttribute,ReferencedEntity,ReferencedAttribute"@,
{
    let mut out = String::from_str("EntityDefinitions(LogicalName='");
    out.append(logical_name);
    out.append("')/OneToManyRelationships?$select=SchemaName,ReferencingEntity,ReferencingAttribute,ReferencedEntity,ReferencedAttribute");
    out
}

/// The endpoint of the relationships in which an entity is one of the many.
pub fn many_to_one_endpoint(logical_name: &str) -> (out: String)
    ensures
        out@ == "EntityDefinitions(LogicalName='"@ + logical_name@ + "')/ManyToOneRelationships?$select=SchemaName,ReferencingEntity,ReferencingAttribute,ReferencedEntity,ReferencedAttribute"@,
{
    let mut out = String::from_str("EntityDefinitions(LogicalName='");
    out.append(logical_name);
    out.append("')/ManyToOneRelationships?$select=SchemaName,ReferencingEntity,ReferencingAttribute,ReferencedEntity,ReferencedAttribute");
    out
}

/// The endpoint of the relationships of many to many that an entity has.
pub fn many_to_many_endpoint(logical_name: &str) -> (out: String)
    ensures
        out@ == "EntityDefinitions(LogicalName='"@ + logical_name@ + "')/ManyToManyRelationships?$select=SchemaName,Entity1LogicalName,Entity2LogicalName,IntersectEntityName"@,
{
    let mut out = String::from_str("EntityDefinitions(LogicalName='");
    out.append(logical_name);
    out.append("')/ManyToManyRelationships?$select=SchemaName,Entity1LogicalName,Entity2LogicalName,IntersectEntityName");
    out
}

/// The endpoint of the option set of an attribute.
pub fn attribute_option_set_endpoint(entity_logical_name: &str, attribute_logical_name: &str) -> (out: String)
    ensures
        out@ == "EntityDefinitions(LogicalName='"@ + entity_logical_name@ + "')/Attributes(LogicalName='"@ + attribute_logical_name@ + "')/Microsoft.Dynamics.CRM.PicklistAttributeMetadata/OptionSet?$select=Name,DisplayName,Description,IsGlobal,OptionSetType,MetadataId"@,
{
    let mut out = String::from_str("EntityDefinitions(LogicalName='");
    out.append(entity_logical_name);
    out.append("')/Attributes(LogicalName='");
    out.append(attribute_logical_name);
    out.append("')/Microsoft.Dynamics.CRM.PicklistAttributeMetadata/OptionSet?$select=Name,DisplayName,Description,IsGlobal,OptionSetType,MetadataId");
    out
}

/// The endpoint of the components of a solution.
pub fn solution_components_endpoint(solution_id: &str) -> (out: String)
    ensures
        out@ == "solutioncomponents?$filter=_solutionid_value eq "@ + solution_id@ + "&$select=componenttype,objectid,solutioncomponentid,rootcomponentbehavior"@,
{
    let mut out = String::from_str("solutioncomponents?$filter=_solutionid_value eq ");
    out.append(solution_id);
    out.append("&$select=componenttype,objectid,solutioncomponentid,rootcomponentbehavior");
    out
}

/// The endpoint of the teams that a user belongs to.
pub fn user_teams_endpoint(user_id: &str) -> (out: String)
    ensures
        out@ == "systemusers("@ + user_id@ + ")/teammembership_association?$select=teamid,name,teamtype,description,isdefault"@,
{
    let mut out = String::from_str("systemusers(");
    out.append(user_id);
    out.append(")/teammembership_association?$select=teamid,name,teamtype,description,isdefault");
    out
}

/// The endpoint of the roles that a user has directly.
pub fn user_roles_endpoint(user_id: &str) -> (out: String)
    ensures
        out@ == "systemusers("@ + user_id@ + ")/systemuserroles_association?$select=roleid,name,ismanaged&$expand=businessunitid($select=businessunitid,name)"@,
{
    let mut out = String::from_str("systemusers(");
    out.append(user_id);
    out.append(")/systemuserroles_association?$select=roleid,name,ismanaged&$expand=businessunitid($select=businessunitid,name)");
    out
}

/// The endpoint of the roles of a team.
pub fn team_roles_endpoint(team_id: &str) -> (out: String)
    ensures
        out@ == "teams("@ + team_id@ + ")/teamroles_association?$select=roleid,name,ismanaged&$expand=businessunitid($select=businessunitid,name)"@,
{
    let mut out = String::from_str("teams(");
    out.append(team_id);
    out.append(")/teamroles_association?$select=roleid,name,ismanaged&$expand=businessunitid($select=businessunitid,name)");
    out
}

/// What authorises a request: the token, marked as a bearer token.
pub fn bearer(token: &str) -> (out: String)
    ensures
        out@ == "Bearer "@ + token@,
{
    let mut out = String::from_str("Bearer ");
    out.append(token);
    out
}

/// The endpoint of the layers of a component of a given type.
pub fn solution_layers_endpoint(component_id: &str, component_type: i32) -> (out: String)
    ensures
        out@ == "msdyn_solutioncomponentlayers?$filter=msdyn_componentid eq '"@ + component_id@
            + "' and msdyn_componenttype eq "@ + signed_decimal(component_type as int),
{
    let mut out = String::from_str("msdyn_solutioncomponentlayers?$filter=msdyn_componentid eq '");
    out.append(component_id);
    out.append("' and msdyn_componenttype eq ");
    out.append(signed_decimal_string(component_type as i64).as_str());
    out
}

/// The endpoint of one job, with all that a job is asked to tell of itself.
pub fn system_job_endpoint(id: &str) -> (out: String)
    ensures
        out@ == "asyncoperations("@ + id@ + ")?$select="@ + SYSTEM_JOB_FIELDS@,
{
    let mut out = String::from_str("asyncoperations(");
    out.append(id);
    out.append(")?$select=");
    out.append(SYSTEM_JOB_FIELDS);
    out
}

} // verus!
