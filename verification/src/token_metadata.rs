//! The token-metadata program: its published instruction set, registered as
//! a data-driven tag table whose full content the registry predicate below
//! pins, and its dispatch table, pinned likewise. Tags, names, field names
//! and byte layouts are fixed constants of the program's wire protocol.

use crate::decoder::decode;
use crate::decoder::spec_decode;
use crate::decoder::DecodeError;
use crate::handler::dispatch;
use crate::handler::enriched_values;
use crate::handler::find_entry;
use crate::handler::handler_entry_is;
use crate::handler::Context;
use crate::handler::HandlerEntry;
use crate::handler::HandlerTable;
use crate::handler::IndexStore;
use crate::record::TransportValue;
use crate::registry::field_def;
use crate::registry::field_is;
use crate::registry::unit_variant;
use crate::registry::unit_variant_is;
use crate::registry::variant_def;
use crate::registry::FieldDef;
use crate::registry::OutputMode;
use crate::registry::Registry;
use crate::registry::VariantDef;
use crate::shape::Shape;
use vstd::prelude::*;

verus! {

/// The declared form of the use-method label list.
pub open spec fn use_method_labels_are(v: Vec<String>) -> bool {
    &&& v@.len() == 3
    &&& v@[0]@ == "Burn"@
    &&& v@[1]@ == "Multiple"@
    &&& v@[2]@ == "Single"@
}

/// The use-method alternatives, in wire order.
fn use_method_labels() -> (r: Vec<String>)
    ensures
        use_method_labels_are(r),
{
    let mut v: Vec<String> = Vec::new();
    v.push("Burn".to_owned());
    v.push("Multiple".to_owned());
    v.push("Single".to_owned());
    v
}

/// The declared form of the royalty-creator layout.
pub open spec fn creator_group_is(s: Shape) -> bool {
    match s {
        Shape::Group(name, fields) => {
            &&& name@ == "Creator"@
            &&& fields@.len() == 3
            &&& fields@[0].0@ == "address"@
            &&& fields@[0].1 is Key
            &&& fields@[1].0@ == "verified"@
            &&& fields@[1].1 is Boolean
            &&& fields@[2].0@ == "share"@
            &&& fields@[2].1 is U8
        },
        _ => false,
    }
}

/// Layout of one royalty creator.
fn creator_group() -> (r: Shape)
    ensures
        creator_group_is(r),
{
    let mut fields: Vec<(String, Shape)> = Vec::new();
    fields.push(("address".to_owned(), Shape::Key));
    fields.push(("verified".to_owned(), Shape::Boolean));
    fields.push(("share".to_owned(), Shape::U8));
    Shape::Group("Creator".to_owned(), fields)
}

/// The declared form of the first-generation asset data.
pub open spec fn data_group_is(s: Shape) -> bool {
    match s {
        Shape::Group(name, fields) => {
            &&& name@ == "Data"@
            &&& fields@.len() == 5
            &&& fields@[0].0@ == "name"@
            &&& fields@[0].1 is Text
            &&& fields@[1].0@ == "symbol"@
            &&& fields@[1].1 is Text
            &&& fields@[2].0@ == "uri"@
            &&& fields@[2].1 is Text
            &&& fields@[3].0@ == "seller_fee_basis_points"@
            &&& fields@[3].1 is U16
            &&& fields@[4].0@ == "creators"@
            &&& (match fields@[4].1 { Shape::Optional(b) => (match (*b) { Shape::Repeat(b) => creator_group_is((*b)), _ => false }), _ => false })
        },
        _ => false,
    }
}

/// Layout of the first-generation asset data.
fn data_group() -> (r: Shape)
    ensures
        data_group_is(r),
{
    let mut fields: Vec<(String, Shape)> = Vec::new();
    fields.push(("name".to_owned(), Shape::Text));
    fields.push(("symbol".to_owned(), Shape::Text));
    fields.push(("uri".to_owned(), Shape::Text));
    fields.push(("seller_fee_basis_points".to_owned(), Shape::U16));
    fields.push(("creators".to_owned(), Shape::Optional(Box::new(Shape::Repeat(Box::new(creator_group()))))));
    Shape::Group("Data".to_owned(), fields)
}

/// The declared form of a collection reference.
pub open spec fn collection_group_is(s: Shape) -> bool {
    match s {
        Shape::Group(name, fields) => {
            &&& name@ == "Collection"@
            &&& fields@.len() == 2
            &&& fields@[0].0@ == "verified"@
            &&& fields@[0].1 is Boolean
            &&& fields@[1].0@ == "key"@
            &&& fields@[1].1 is Key
        },
        _ => false,
    }
}

/// Layout of a collection reference.
fn collection_group() -> (r: Shape)
    ensures
        collection_group_is(r),
{
    let mut fields: Vec<(String, Shape)> = Vec::new();
    fields.push(("verified".to_owned(), Shape::Boolean));
    fields.push(("key".to_owned(), Shape::Key));
    Shape::Group("Collection".to_owned(), fields)
}

/// The declared form of the usage allowance.
pub open spec fn uses_group_is(s: Shape) -> bool {
    match s {
        Shape::Group(name, fields) => {
            &&& name@ == "Uses"@
            &&& fields@.len() == 3
            &&& fields@[0].0@ == "use_method"@
            &&& (match fields@[0].1 { Shape::Labels(l) => use_method_labels_are(l), _ => false })
            &&& fields@[1].0@ == "remaining"@
            &&& fields@[1].1 is U64
            &&& fields@[2].0@ == "total"@
            &&& fields@[2].1 is U64
        },
        _ => false,
    }
}

/// Layout of the usage allowance.
fn uses_group() -> (r: Shape)
    ensures
        uses_group_is(r),
{
    let mut fields: Vec<(String, Shape)> = Vec::new();
    fields.push(("use_method".to_owned(), Shape::Labels(use_method_labels())));
    fields.push(("remaining".to_owned(), Shape::U64));
    fields.push(("total".to_owned(), Shape::U64));
    Shape::Group("Uses".to_owned(), fields)
}

/// The declared form of the second-generation asset data.
pub open spec fn data_v2_group_is(s: Shape) -> bool {
    match s {
        Shape::Group(name, fields) => {
            &&& name@ == "DataV2"@
            &&& fields@.len() == 7
            &&& fields@[0].0@ == "name"@
            &&& fields@[0].1 is Text
            &&& fields@[1].0@ == "symbol"@
            &&& fields@[1].1 is Text
            &&& fields@[2].0@ == "uri"@
            &&& fields@[2].1 is Text
            &&& fields@[3].0@ == "seller_fee_basis_points"@
            &&& fields@[3].1 is U16
            &&& fields@[4].0@ == "creators"@
            &&& (match fields@[4].1 { Shape::Optional(b) => (match (*b) { Shape::Repeat(b) => creator_group_is((*b)), _ => false }), _ => false })
            &&& fields@[5].0@ == "collection"@
            &&& (match fields@[5].1 { Shape::Optional(b) => collection_group_is((*b)), _ => false })
            &&& fields@[6].0@ == "uses"@
            &&& (match fields@[6].1 { Shape::Optional(b) => uses_group_is((*b)), _ => false })
        },
        _ => false,
    }
}

/// Layout of the second-generation asset data.
fn data_v2_group() -> (r: Shape)
    ensures
        data_v2_group_is(r),
{
    let mut fields: Vec<(String, Shape)> = Vec::new();
    fields.push(("name".to_owned(), Shape::Text));
    fields.push(("symbol".to_owned(), Shape::Text));
    fields.push(("uri".to_owned(), Shape::Text));
    fields.push(("seller_fee_basis_points".to_owned(), Shape::U16));
    fields.push(("creators".to_owned(), Shape::Optional(Box::new(Shape::Repeat(Box::new(creator_group()))))));
    fields.push(("collection".to_owned(), Shape::Optional(Box::new(collection_group()))));
    fields.push(("uses".to_owned(), Shape::Optional(Box::new(uses_group()))));
    Shape::Group("DataV2".to_owned(), fields)
}

/// The declared form of the reservation-entry layout.
pub open spec fn reservation_group_is(s: Shape) -> bool {
    match s {
        Shape::Group(name, fields) => {
            &&& name@ == "Reservation"@
            &&& fields@.len() == 3
            &&& fields@[0].0@ == "address"@
            &&& fields@[0].1 is Key
            &&& fields@[1].0@ == "spots_remaining"@
            &&& fields@[1].1 is U64
            &&& fields@[2].0@ == "total_spots"@
            &&& fields@[2].1 is U64
        },
        _ => false,
    }
}

/// Layout of one reservation entry.
fn reservation_group() -> (r: Shape)
    ensures
        reservation_group_is(r),
{
    let mut fields: Vec<(String, Shape)> = Vec::new();
    fields.push(("address".to_owned(), Shape::Key));
    fields.push(("spots_remaining".to_owned(), Shape::U64));
    fields.push(("total_spots".to_owned(), Shape::U64));
    Shape::Group("Reservation".to_owned(), fields)
}

/// The registered form of the CreateMetadataAccount variant.
pub open spec fn create_metadata_account_variant_is(v: VariantDef) -> bool {
    &&& v.tag == 0
    &&& v.name@ == "CreateMetadataAccount"@
    &&& v.fields@.len() == 2
    &&& field_is(v.fields@[0], "data"@, OutputMode::Nulled)
    &&& data_group_is(v.fields@[0].shape)
    &&& field_is(v.fields@[1], "is_mutable"@, OutputMode::Plain)
    &&& v.fields@[1].shape is Boolean
}

/// The registered form of the UpdateMetadataAccount variant.
pub open spec fn update_metadata_account_variant_is(v: VariantDef) -> bool {
    &&& v.tag == 1
    &&& v.name@ == "UpdateMetadataAccount"@
    &&& v.fields@.len() == 3
    &&& field_is(v.fields@[0], "data"@, OutputMode::Rendered)
    &&& (match v.fields@[0].shape { Shape::Optional(b) => data_group_is((*b)), _ => false })
    &&& field_is(v.fields@[1], "update_authority"@, OutputMode::Nulled)
    &&& (match v.fields@[1].shape { Shape::Optional(b) => (*b) is Key, _ => false })
    &&& field_is(v.fields@[2], "primary_sale_happened"@, OutputMode::Plain)
    &&& (match v.fields@[2].shape { Shape::Optional(b) => (*b) is Boolean, _ => false })
}

/// The registered form of the DeprecatedCreateMasterEdition variant.
pub open spec fn deprecated_create_master_edition_variant_is(v: VariantDef) -> bool {
    &&& v.tag == 2
    &&& v.name@ == "DeprecatedCreateMasterEdition"@
    &&& v.fields@.len() == 1
    &&& field_is(v.fields@[0], "max_supply"@, OutputMode::Plain)
    &&& (match v.fields@[0].shape { Shape::Optional(b) => (*b) is U64, _ => false })
}

/// The registered form of the DeprecatedSetReservationList variant.
pub open spec fn deprecated_set_reservation_list_variant_is(v: VariantDef) -> bool {
    &&& v.tag == 5
    &&& v.name@ == "DeprecatedSetReservationList"@
    &&& v.fields@.len() == 4
    &&& field_is(v.fields@[0], "reservations"@, OutputMode::Rendered)
    &&& (match v.fields@[0].shape { Shape::Repeat(b) => reservation_group_is((*b)), _ => false })
    &&& field_is(v.fields@[1], "total_reservation_spots"@, OutputMode::Plain)
    &&& (match v.fields@[1].shape { Shape::Optional(b) => (*b) is U64, _ => false })
    &&& field_is(v.fields@[2], "offset"@, OutputMode::Plain)
    &&& v.fields@[2].shape is U64
    &&& field_is(v.fields@[3], "total_spot_offset"@, OutputMode::Plain)
    &&& v.fields@[3].shape is U64
}

/// The registered form of the DeprecatedMintPrintingTokensViaToken variant.
pub open spec fn deprecated_mint_printing_tokens_via_token_variant_is(v: VariantDef) -> bool {
    &&& v.tag == 8
    &&& v.name@ == "DeprecatedMintPrintingTokensViaToken"@
    &&& v.fields@.len() == 1
    &&& field_is(v.fields@[0], "supply"@, OutputMode::Plain)
    &&& v.fields@[0].shape is U64
}

/// The registered form of the DeprecatedMintPrintingTokens variant.
pub open spec fn deprecated_mint_printing_tokens_variant_is(v: VariantDef) -> bool {
    &&& v.tag == 9
    &&& v.name@ == "DeprecatedMintPrintingTokens"@
    &&& v.fields@.len() == 1
    &&& field_is(v.fields@[0], "supply"@, OutputMode::Plain)
    &&& v.fields@[0].shape is U64
}

/// The registered form of the CreateMasterEdition variant.
pub open spec fn create_master_edition_variant_is(v: VariantDef) -> bool {
    &&& v.tag == 10
    &&& v.name@ == "CreateMasterEdition"@
    &&& v.fields@.len() == 1
    &&& field_is(v.fields@[0], "max_supply"@, OutputMode::Plain)
    &&& (match v.fields@[0].shape { Shape::Optional(b) => (*b) is U64, _ => false })
}

/// The registered form of the MintNewEditionFromMasterEditionViaToken variant.
pub open spec fn mint_new_edition_from_master_edition_via_token_variant_is(v: VariantDef) -> bool {
    &&& v.tag == 11
    &&& v.name@ == "MintNewEditionFromMasterEditionViaToken"@
    &&& v.fields@.len() == 1
    &&& field_is(v.fields@[0], "edition"@, OutputMode::Plain)
    &&& v.fields@[0].shape is U64
}

/// The registered form of the MintNewEditionFromMasterEditionViaVaultProxy variant.
pub open spec fn mint_new_edition_from_master_edition_via_vault_proxy_variant_is(v: VariantDef) -> bool {
    &&& v.tag == 13
    &&& v.name@ == "MintNewEditionFromMasterEditionViaVaultProxy"@
    &&& v.fields@.len() == 1
    &&& field_is(v.fields@[0], "edition"@, OutputMode::Plain)
    &&& v.fields@[0].shape is U64
}

/// The registered form of the UpdateMetadataAccountV2 variant.
pub open spec fn update_metadata_account_v2_variant_is(v: VariantDef) -> bool {
    &&& v.tag == 15
    &&& v.name@ == "UpdateMetadataAccountV2"@
    &&& v.fields@.len() == 4
    &&& field_is(v.fields@[0], "data"@, OutputMode::Rendered)
    &&& (match v.fields@[0].shape { Shape::Optional(b) => data_v2_group_is((*b)), _ => false })
    &&& field_is(v.fields@[1], "update_authority"@, OutputMode::Nulled)
    &&& (match v.fields@[1].shape { Shape::Optional(b) => (*b) is Key, _ => false })
    &&& field_is(v.fields@[2], "primary_sale_happened"@, OutputMode::Plain)
    &&& (match v.fields@[2].shape { Shape::Optional(b) => (*b) is Boolean, _ => false })
    &&& field_is(v.fields@[3], "is_mutable"@, OutputMode::Plain)
    &&& (match v.fields@[3].shape { Shape::Optional(b) => (*b) is Boolean, _ => false })
}

/// The registered form of the CreateMetadataAccountV2 variant.
pub open spec fn create_metadata_account_v2_variant_is(v: VariantDef) -> bool {
    &&& v.tag == 16
    &&& v.name@ == "CreateMetadataAccountV2"@
    &&& v.fields@.len() == 2
    &&& field_is(v.fields@[0], "data"@, OutputMode::Nulled)
    &&& data_v2_group_is(v.fields@[0].shape)
    &&& field_is(v.fields@[1], "is_mutable"@, OutputMode::Plain)
    &&& v.fields@[1].shape is Boolean
}

/// The registered form of the CreateMasterEditionV3 variant.
pub open spec fn create_master_edition_v3_variant_is(v: VariantDef) -> bool {
    &&& v.tag == 17
    &&& v.name@ == "CreateMasterEditionV3"@
    &&& v.fields@.len() == 1
    &&& field_is(v.fields@[0], "max_supply"@, OutputMode::Plain)
    &&& (match v.fields@[0].shape { Shape::Optional(b) => (*b) is U64, _ => false })
}

/// The registered form of the Utilize variant.
pub open spec fn utilize_variant_is(v: VariantDef) -> bool {
    &&& v.tag == 19
    &&& v.name@ == "Utilize"@
    &&& v.fields@.len() == 1
    &&& field_is(v.fields@[0], "number_of_uses"@, OutputMode::Plain)
    &&& v.fields@[0].shape is U64
}

/// The registered form of the ApproveUseAuthority variant.
pub open spec fn approve_use_authority_variant_is(v: VariantDef) -> bool {
    &&& v.tag == 20
    &&& v.name@ == "ApproveUseAuthority"@
    &&& v.fields@.len() == 1
    &&& field_is(v.fields@[0], "number_of_uses"@, OutputMode::Plain)
    &&& v.fields@[0].shape is U64
}

/// The full registered content of the token-metadata instruction registry:
/// every published tag with its variant name and the keys, shapes and
/// output modes of its declared payload fields.
pub open spec fn registry_is(r: Registry) -> bool {
    &&& r.variants@.len() == 25
    &&& create_metadata_account_variant_is(r.variants@[0])
    &&& update_metadata_account_variant_is(r.variants@[1])
    &&& deprecated_create_master_edition_variant_is(r.variants@[2])
    &&& unit_variant_is(r.variants@[3], 3, "DeprecatedMintNewEditionFromMasterEditionViaPrintingToken"@)
    &&& unit_variant_is(r.variants@[4], 4, "UpdatePrimarySaleHappenedViaToken"@)
    &&& deprecated_set_reservation_list_variant_is(r.variants@[5])
    &&& unit_variant_is(r.variants@[6], 6, "DeprecatedCreateReservationList"@)
    &&& unit_variant_is(r.variants@[7], 7, "SignMetadata"@)
    &&& deprecated_mint_printing_tokens_via_token_variant_is(r.variants@[8])
    &&& deprecated_mint_printing_tokens_variant_is(r.variants@[9])
    &&& create_master_edition_variant_is(r.variants@[10])
    &&& mint_new_edition_from_master_edition_via_token_variant_is(r.variants@[11])
    &&& unit_variant_is(r.variants@[12], 12, "ConvertMasterEditionV1ToV2"@)
    &&& mint_new_edition_from_master_edition_via_vault_proxy_variant_is(r.variants@[13])
    &&& unit_variant_is(r.variants@[14], 14, "PuffMetadata"@)
    &&& update_metadata_account_v2_variant_is(r.variants@[15])
    &&& create_metadata_account_v2_variant_is(r.variants@[16])
    &&& create_master_edition_v3_variant_is(r.variants@[17])
    &&& unit_variant_is(r.variants@[18], 18, "VerifyCollection"@)
    &&& utilize_variant_is(r.variants@[19])
    &&& approve_use_authority_variant_is(r.variants@[20])
    &&& unit_variant_is(r.variants@[21], 21, "RevokeUseAuthority"@)
    &&& unit_variant_is(r.variants@[22], 22, "UnverifyCollection"@)
    &&& unit_variant_is(r.variants@[23], 23, "ApproveCollectionAuthority"@)
    &&& unit_variant_is(r.variants@[24], 24, "RevokeCollectionAuthority"@)
}

/// The token-metadata program's instruction registry: every published tag
/// with its variant name and payload layout, densely numbered from zero.
pub struct InstructionParser {
    pub registry: Registry,
}

impl InstructionParser {
    /// Builds the registry, with its full content as `registry_is`
    /// states it.
    pub fn new() -> (r: InstructionParser)
        ensures
            registry_is(r.registry),
    {
        let mut vs: Vec<VariantDef> = Vec::new();
        let mut create_metadata_account_fields: Vec<FieldDef> = Vec::new();
        create_metadata_account_fields.push(field_def("data", data_group(), OutputMode::Nulled));
        create_metadata_account_fields.push(field_def("is_mutable", Shape::Boolean, OutputMode::Plain));
        vs.push(variant_def(0, "CreateMetadataAccount", create_metadata_account_fields));
        let mut update_metadata_account_fields: Vec<FieldDef> = Vec::new();
        update_metadata_account_fields.push(field_def("data", Shape::Optional(Box::new(data_group())), OutputMode::Rendered));
        update_metadata_account_fields.push(field_def("update_authority", Shape::Optional(Box::new(Shape::Key)), OutputMode::Nulled));
        update_metadata_account_fields.push(field_def("primary_sale_happened", Shape::Optional(Box::new(Shape::Boolean)), OutputMode::Plain));
        vs.push(variant_def(1, "UpdateMetadataAccount", update_metadata_account_fields));
        let mut deprecated_create_master_edition_fields: Vec<FieldDef> = Vec::new();
        deprecated_create_master_edition_fields.push(field_def("max_supply", Shape::Optional(Box::new(Shape::U64)), OutputMode::Plain));
        vs.push(variant_def(2, "DeprecatedCreateMasterEdition", deprecated_create_master_edition_fields));
        vs.push(unit_variant(3, "DeprecatedMintNewEditionFromMasterEditionViaPrintingToken"));
        vs.push(unit_variant(4, "UpdatePrimarySaleHappenedViaToken"));
        let mut deprecated_set_reservation_list_fields: Vec<FieldDef> = Vec::new();
        deprecated_set_reservation_list_fields.push(field_def("reservations", Shape::Repeat(Box::new(reservation_group())), OutputMode::Rendered));
        deprecated_set_reservation_list_fields.push(field_def("total_reservation_spots", Shape::Optional(Box::new(Shape::U64)), OutputMode::Plain));
        deprecated_set_reservation_list_fields.push(field_def("offset", Shape::U64, OutputMode::Plain));
        deprecated_set_reservation_list_fields.push(field_def("total_spot_offset", Shape::U64, OutputMode::Plain));
        vs.push(variant_def(5, "DeprecatedSetReservationList", deprecated_set_reservation_list_fields));
        vs.push(unit_variant(6, "DeprecatedCreateReservationList"));
        vs.push(unit_variant(7, "SignMetadata"));
        let mut deprecated_mint_printing_tokens_via_token_fields: Vec<FieldDef> = Vec::new();
        deprecated_mint_printing_tokens_via_token_fields.push(field_def("supply", Shape::U64, OutputMode::Plain));
        vs.push(variant_def(8, "DeprecatedMintPrintingTokensViaToken", deprecated_mint_printing_tokens_via_token_fields));
        let mut deprecated_mint_printing_tokens_fields: Vec<FieldDef> = Vec::new();
        deprecated_mint_printing_tokens_fields.push(field_def("supply", Shape::U64, OutputMode::Plain));
        vs.push(variant_def(9, "DeprecatedMintPrintingTokens", deprecated_mint_printing_tokens_fields));
        let mut create_master_edition_fields: Vec<FieldDef> = Vec::new();
        create_master_edition_fields.push(field_def("max_supply", Shape::Optional(Box::new(Shape::U64)), OutputMode::Plain));
        vs.push(variant_def(10, "CreateMasterEdition", create_master_edition_fields));
        let mut mint_new_edition_from_master_edition_via_token_fields: Vec<FieldDef> = Vec::new();
        mint_new_edition_from_master_edition_via_token_fields.push(field_def("edition", Shape::U64, OutputMode::Plain));
        vs.push(variant_def(11, "MintNewEditionFromMasterEditionViaToken", mint_new_edition_from_master_edition_via_token_fields));
        vs.push(unit_variant(12, "ConvertMasterEditionV1ToV2"));
        let mut mint_new_edition_from_master_edition_via_vault_proxy_fields: Vec<FieldDef> = Vec::new();
        mint_new_edition_from_master_edition_via_vault_proxy_fields.push(field_def("edition", Shape::U64, OutputMode::Plain));
        vs.push(variant_def(13, "MintNewEditionFromMasterEditionViaVaultProxy", mint_new_edition_from_master_edition_via_vault_proxy_fields));
        vs.push(unit_variant(14, "PuffMetadata"));
        let mut update_metadata_account_v2_fields: Vec<FieldDef> = Vec::new();
        update_metadata_account_v2_fields.push(field_def("data", Shape::Optional(Box::new(data_v2_group())), OutputMode::Rendered));
        update_metadata_account_v2_fields.push(field_def("update_authority", Shape::Optional(Box::new(Shape::Key)), OutputMode::Nulled));
        update_metadata_account_v2_fields.push(field_def("primary_sale_happened", Shape::Optional(Box::new(Shape::Boolean)), OutputMode::Plain));
        update_metadata_account_v2_fields.push(field_def("is_mutable", Shape::Optional(Box::new(Shape::Boolean)), OutputMode::Plain));
        vs.push(variant_def(15, "UpdateMetadataAccountV2", update_metadata_account_v2_fields));
        let mut create_metadata_account_v2_fields: Vec<FieldDef> = Vec::new();
        create_metadata_account_v2_fields.push(field_def("data", data_v2_group(), OutputMode::Nulled));
        create_metadata_account_v2_fields.push(field_def("is_mutable", Shape::Boolean, OutputMode::Plain));
        vs.push(variant_def(16, "CreateMetadataAccountV2", create_metadata_account_v2_fields));
        let mut create_master_edition_v3_fields: Vec<FieldDef> = Vec::new();
        create_master_edition_v3_fields.push(field_def("max_supply", Shape::Optional(Box::new(Shape::U64)), OutputMode::Plain));
        vs.push(variant_def(17, "CreateMasterEditionV3", create_master_edition_v3_fields));
        vs.push(unit_variant(18, "VerifyCollection"));
        let mut utilize_fields: Vec<FieldDef> = Vec::new();
        utilize_fields.push(field_def("number_of_uses", Shape::U64, OutputMode::Plain));
        vs.push(variant_def(19, "Utilize", utilize_fields));
        let mut approve_use_authority_fields: Vec<FieldDef> = Vec::new();
        approve_use_authority_fields.push(field_def("number_of_uses", Shape::U64, OutputMode::Plain));
        vs.push(variant_def(20, "ApproveUseAuthority", approve_use_authority_fields));
        vs.push(unit_variant(21, "RevokeUseAuthority"));
        vs.push(unit_variant(22, "UnverifyCollection"));
        vs.push(unit_variant(23, "ApproveCollectionAuthority"));
        vs.push(unit_variant(24, "RevokeCollectionAuthority"));
        proof {
            assert(create_metadata_account_variant_is(vs@[0]));
            assert(update_metadata_account_variant_is(vs@[1]));
            assert(deprecated_create_master_edition_variant_is(vs@[2]));
            assert(unit_variant_is(vs@[3], 3, "DeprecatedMintNewEditionFromMasterEditionViaPrintingToken"@));
            assert(unit_variant_is(vs@[4], 4, "UpdatePrimarySaleHappenedViaToken"@));
            assert(deprecated_set_reservation_list_variant_is(vs@[5]));
            assert(unit_variant_is(vs@[6], 6, "DeprecatedCreateReservationList"@));
            assert(unit_variant_is(vs@[7], 7, "SignMetadata"@));
            assert(deprecated_mint_printing_tokens_via_token_variant_is(vs@[8]));
            assert(deprecated_mint_printing_tokens_variant_is(vs@[9]));
            assert(create_master_edition_variant_is(vs@[10]));
            assert(mint_new_edition_from_master_edition_via_token_variant_is(vs@[11]));
            assert(unit_variant_is(vs@[12], 12, "ConvertMasterEditionV1ToV2"@));
            assert(mint_new_edition_from_master_edition_via_vault_proxy_variant_is(vs@[13]));
            assert(unit_variant_is(vs@[14], 14, "PuffMetadata"@));
            assert(update_metadata_account_v2_variant_is(vs@[15]));
            assert(create_metadata_account_v2_variant_is(vs@[16]));
            assert(create_master_edition_v3_variant_is(vs@[17]));
            assert(unit_variant_is(vs@[18], 18, "VerifyCollection"@));
            assert(utilize_variant_is(vs@[19]));
            assert(approve_use_authority_variant_is(vs@[20]));
            assert(unit_variant_is(vs@[21], 21, "RevokeUseAuthority"@));
            assert(unit_variant_is(vs@[22], 22, "UnverifyCollection"@));
            assert(unit_variant_is(vs@[23], 23, "ApproveCollectionAuthority"@));
            assert(unit_variant_is(vs@[24], 24, "RevokeCollectionAuthority"@));
        }
        InstructionParser { registry: Registry { variants: vs } }
    }

    /// Decodes raw instruction bytes against this program's registry into a
    /// transport record, exactly as `decoder::decode` specifies.
    pub fn unpack_instruction(&self, input: &[u8]) -> (r: Result<TransportValue, DecodeError>)
        ensures
            match spec_decode(self.registry, input@) {
                Ok(m) => r matches Ok(tv) && tv@ == m,
                Err(e) => r matches Err(err) && err == e,
            },
    {
        decode(&self.registry, input)
    }
}

/// The full content of the dispatch table: every handled record name,
/// in registration order, with its account-enrichment flag.
pub open spec fn table_is(t: HandlerTable) -> bool {
    &&& t.entries@.len() == 25
    &&& handler_entry_is(t.entries@[0], "CreateMetadataAccount"@, true)
    &&& handler_entry_is(t.entries@[1], "UpdateMetadataAccount"@, true)
    &&& handler_entry_is(t.entries@[2], "DeprecatedCreateMasterEdition"@, true)
    &&& handler_entry_is(t.entries@[3], "DeprecatedMintNewEditionFromMasterEditionViaPrintingToken"@, true)
    &&& handler_entry_is(t.entries@[4], "UpdatePrimarySaleHappenedViaToken"@, true)
    &&& handler_entry_is(t.entries@[5], "DeprecatedSetReservationList"@, true)
    &&& handler_entry_is(t.entries@[6], "DeprecatedCreateReservationList"@, true)
    &&& handler_entry_is(t.entries@[7], "SignMetadata"@, true)
    &&& handler_entry_is(t.entries@[8], "DeprecatedMintPrintingTokensViaToken"@, true)
    &&& handler_entry_is(t.entries@[9], "DeprecatedMintPrintingTokens"@, true)
    &&& handler_entry_is(t.entries@[10], "CreateMasterEdition"@, true)
    &&& handler_entry_is(t.entries@[11], "MintNewEditionFromMasterEditionViaToken"@, true)
    &&& handler_entry_is(t.entries@[12], "ConvertMasterEditionV1ToV2"@, true)
    &&& handler_entry_is(t.entries@[13], "MintNewEditionFromMasterEditionViaVaultProxy"@, true)
    &&& handler_entry_is(t.entries@[14], "PuffMetadata"@, true)
    &&& handler_entry_is(t.entries@[15], "UpdateMetadataAccountV2"@, true)
    &&& handler_entry_is(t.entries@[16], "CreateMetadataAccountV2"@, true)
    &&& handler_entry_is(t.entries@[17], "CreateMasterEditionV3"@, true)
    &&& handler_entry_is(t.entries@[18], "VerifyCollection"@, true)
    &&& handler_entry_is(t.entries@[19], "Utilize"@, true)
    &&& handler_entry_is(t.entries@[20], "ApproveUseAuthority"@, true)
    &&& handler_entry_is(t.entries@[21], "RevokeUseAuthority"@, true)
    &&& handler_entry_is(t.entries@[22], "UnverifyCollection"@, true)
    &&& handler_entry_is(t.entries@[23], "ApproveCollectionAuthority"@, false)
    &&& handler_entry_is(t.entries@[24], "RevokeCollectionAuthority"@, false)
}

/// The token-metadata program's dispatch handler.
pub struct Handler {
    pub table: HandlerTable,
}

impl Handler {
    /// Builds the dispatch table, with its full content as `table_is`
    /// states it: all but the two collection-authority variants are enriched with the first referenced account.
    pub fn new() -> (r: Handler)
        ensures
            table_is(r.table),
    {
        let mut es: Vec<HandlerEntry> = Vec::new();
        es.push(HandlerEntry { name: "CreateMetadataAccount".to_owned(), with_account: true });
        es.push(HandlerEntry { name: "UpdateMetadataAccount".to_owned(), with_account: true });
        es.push(HandlerEntry { name: "DeprecatedCreateMasterEdition".to_owned(), with_account: true });
        es.push(HandlerEntry { name: "DeprecatedMintNewEditionFromMasterEditionViaPrintingToken".to_owned(), with_account: true });
        es.push(HandlerEntry { name: "UpdatePrimarySaleHappenedViaToken".to_owned(), with_account: true });
        es.push(HandlerEntry { name: "DeprecatedSetReservationList".to_owned(), with_account: true });
        es.push(HandlerEntry { name: "DeprecatedCreateReservationList".to_owned(), with_account: true });
        es.push(HandlerEntry { name: "SignMetadata".to_owned(), with_account: true });
        es.push(HandlerEntry { name: "DeprecatedMintPrintingTokensViaToken".to_owned(), with_account: true });
        es.push(HandlerEntry { name: "DeprecatedMintPrintingTokens".to_owned(), with_account: true });
        es.push(HandlerEntry { name: "CreateMasterEdition".to_owned(), with_account: true });
        es.push(HandlerEntry { name: "MintNewEditionFromMasterEditionViaToken".to_owned(), with_account: true });
        es.push(HandlerEntry { name: "ConvertMasterEditionV1ToV2".to_owned(), with_account: true });
        es.push(HandlerEntry { name: "MintNewEditionFromMasterEditionViaVaultProxy".to_owned(), with_account: true });
        es.push(HandlerEntry { name: "PuffMetadata".to_owned(), with_account: true });
        es.push(HandlerEntry { name: "UpdateMetadataAccountV2".to_owned(), with_account: true });
        es.push(HandlerEntry { name: "CreateMetadataAccountV2".to_owned(), with_account: true });
        es.push(HandlerEntry { name: "CreateMasterEditionV3".to_owned(), with_account: true });
        es.push(HandlerEntry { name: "VerifyCollection".to_owned(), with_account: true });
        es.push(HandlerEntry { name: "Utilize".to_owned(), with_account: true });
        es.push(HandlerEntry { name: "ApproveUseAuthority".to_owned(), with_account: true });
        es.push(HandlerEntry { name: "RevokeUseAuthority".to_owned(), with_account: true });
        es.push(HandlerEntry { name: "UnverifyCollection".to_owned(), with_account: true });
        es.push(HandlerEntry { name: "ApproveCollectionAuthority".to_owned(), with_account: false });
        es.push(HandlerEntry { name: "RevokeCollectionAuthority".to_owned(), with_account: false });
        Handler { table: HandlerTable { entries: es } }
    }

    /// Dispatches one decoded record: known names are enriched with the
    /// context fields their table entry declares and handed to the store;
    /// unknown names are dropped silently.
    pub fn process<S: IndexStore>(
        &self,
        ctx: &Context,
        input: TransportValue,
        store: &mut S,
    ) -> (r: Option<TransportValue>)
        ensures
            match find_entry(self.table.entries@, input@.name) {
                Some(e) => r matches Some(out) && out@.name == input@.name && out@.values
                    == enriched_values(input@.values, *ctx, e.with_account),
                None => r is None,
            },
    {
        dispatch(&self.table, ctx, input, store)
    }
}

} // verus!
