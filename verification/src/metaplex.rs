//! The auction-manager program: its published instruction set, registered as
//! a data-driven tag table whose full content the registry predicate below
//! pins, and its dispatch table, pinned likewise. Tags, names, field names
//! and byte layouts are fixed constants of the program's wire protocol.

use crate::decoder::decode;
use crate::decoder::spec_decode;
use crate::decoder::DecodeError;
use crate::handler::dispatch;
use crate::handler::enriched_values;
use crate::handler::find_entry;
use crate::handler::handler_entry_is;
use crate::handler::Context;
use crate::handler::HandlerEntry;
use crate::handler::HandlerTable;
use crate::handler::IndexStore;
use crate::record::TransportValue;
use crate::registry::field_def;
use crate::registry::field_is;
use crate::registry::unit_variant;
use crate::registry::unit_variant_is;
use crate::registry::variant_def;
use crate::registry::FieldDef;
use crate::registry::OutputMode;
use crate::registry::Registry;
use crate::registry::VariantDef;
use crate::shape::Shape;
use vstd::prelude::*;

verus! {

/// The declared form of the winning-config-type label list.
pub open spec fn winning_config_type_labels_are(v: Vec<String>) -> bool {
    &&& v@.len() == 5
    &&& v@[0]@ == "TokenOnlyTransfer"@
    &&& v@[1]@ == "FullRightsTransfer"@
    &&& v@[2]@ == "PrintingV1"@
    &&& v@[3]@ == "PrintingV2"@
    &&& v@[4]@ == "Participation"@
}

/// The winning-config-type alternatives, in wire order.
fn winning_config_type_labels() -> (r: Vec<String>)
    ensures
        winning_config_type_labels_are(r),
{
    let mut v: Vec<String> = Vec::new();
    v.push("TokenOnlyTransfer".to_owned());
    v.push("FullRightsTransfer".to_owned());
    v.push("PrintingV1".to_owned());
    v.push("PrintingV2".to_owned());
    v.push("Participation".to_owned());
    v
}

/// The declared form of the tuple-numeric-type label list. The protocol
/// keeps padding entries so the meaningful entries sit at their intended
/// positions.
pub open spec fn tuple_numeric_type_labels_are(v: Vec<String>) -> bool {
    &&& v@.len() == 9
    &&& v@[0]@ == "Padding0"@
    &&& v@[1]@ == "U8"@
    &&& v@[2]@ == "U16"@
    &&& v@[3]@ == "Padding1"@
    &&& v@[4]@ == "U32"@
    &&& v@[5]@ == "Padding2"@
    &&& v@[6]@ == "Padding3"@
    &&& v@[7]@ == "Padding4"@
    &&& v@[8]@ == "U64"@
}

/// The tuple-numeric-type alternatives, in wire order.
fn tuple_numeric_type_labels() -> (r: Vec<String>)
    ensures
        tuple_numeric_type_labels_are(r),
{
    let mut v: Vec<String> = Vec::new();
    v.push("Padding0".to_owned());
    v.push("U8".to_owned());
    v.push("U16".to_owned());
    v.push("Padding1".to_owned());
    v.push("U32".to_owned());
    v.push("Padding2".to_owned());
    v.push("Padding3".to_owned());
    v.push("Padding4".to_owned());
    v.push("U64".to_owned());
    v
}

/// The declared form of the account-kind label list.
pub open spec fn key_kind_labels_are(v: Vec<String>) -> bool {
    &&& v@.len() == 16
    &&& v@[0]@ == "Uninitialized"@
    &&& v@[1]@ == "OriginalAuthorityLookupV1"@
    &&& v@[2]@ == "BidRedemptionTicketV1"@
    &&& v@[3]@ == "StoreV1"@
    &&& v@[4]@ == "WhitelistedCreatorV1"@
    &&& v@[5]@ == "PayoutTicketV1"@
    &&& v@[6]@ == "SafetyDepositValidationTicketV1"@
    &&& v@[7]@ == "AuctionManagerV1"@
    &&& v@[8]@ == "PrizeTrackingTicketV1"@
    &&& v@[9]@ == "SafetyDepositConfigV1"@
    &&& v@[10]@ == "AuctionManagerV2"@
    &&& v@[11]@ == "BidRedemptionTicketV2"@
    &&& v@[12]@ == "AuctionWinnerTokenTypeTrackerV1"@
    &&& v@[13]@ == "StoreIndexerV1"@
    &&& v@[14]@ == "AuctionCacheV1"@
    &&& v@[15]@ == "StoreConfigV1"@
}

/// The account-kind alternatives, in wire order.
fn key_kind_labels() -> (r: Vec<String>)
    ensures
        key_kind_labels_are(r),
{
    let mut v: Vec<String> = Vec::new();
    v.push("Uninitialized".to_owned());
    v.push("OriginalAuthorityLookupV1".to_owned());
    v.push("BidRedemptionTicketV1".to_owned());
    v.push("StoreV1".to_owned());
    v.push("WhitelistedCreatorV1".to_owned());
    v.push("PayoutTicketV1".to_owned());
    v.push("SafetyDepositValidationTicketV1".to_owned());
    v.push("AuctionManagerV1".to_owned());
    v.push("PrizeTrackingTicketV1".to_owned());
    v.push("SafetyDepositConfigV1".to_owned());
    v.push("AuctionManagerV2".to_owned());
    v.push("BidRedemptionTicketV2".to_owned());
    v.push("AuctionWinnerTokenTypeTrackerV1".to_owned());
    v.push("StoreIndexerV1".to_owned());
    v.push("AuctionCacheV1".to_owned());
    v.push("StoreConfigV1".to_owned());
    v
}

/// The declared form of the winner-constraint label list.
pub open spec fn winning_constraint_labels_are(v: Vec<String>) -> bool {
    &&& v@.len() == 2
    &&& v@[0]@ == "NoParticipationPrize"@
    &&& v@[1]@ == "ParticipationPrizeGiven"@
}

/// The winner-constraint alternatives, in wire order.
fn winning_constraint_labels() -> (r: Vec<String>)
    ensures
        winning_constraint_labels_are(r),
{
    let mut v: Vec<String> = Vec::new();
    v.push("NoParticipationPrize".to_owned());
    v.push("ParticipationPrizeGiven".to_owned());
    v
}

/// The declared form of the non-winning-constraint label list.
pub open spec fn non_winning_constraint_labels_are(v: Vec<String>) -> bool {
    &&& v@.len() == 3
    &&& v@[0]@ == "NoParticipationPrize"@
    &&& v@[1]@ == "GivenForFixedPrice"@
    &&& v@[2]@ == "GivenForBidPrice"@
}

/// The non-winning-constraint alternatives, in wire order.
fn non_winning_constraint_labels() -> (r: Vec<String>)
    ensures
        non_winning_constraint_labels_are(r),
{
    let mut v: Vec<String> = Vec::new();
    v.push("NoParticipationPrize".to_owned());
    v.push("GivenForFixedPrice".to_owned());
    v.push("GivenForBidPrice".to_owned());
    v
}

/// The declared form of the proxy-call label list.
pub open spec fn proxy_call_labels_are(v: Vec<String>) -> bool {
    &&& v@.len() == 2
    &&& v@[0]@ == "RedeemBid"@
    &&& v@[1]@ == "RedeemFullRightsTransferBid"@
}

/// The proxy-call alternatives, in wire order.
fn proxy_call_labels() -> (r: Vec<String>)
    ensures
        proxy_call_labels_are(r),
{
    let mut v: Vec<String> = Vec::new();
    v.push("RedeemBid".to_owned());
    v.push("RedeemFullRightsTransferBid".to_owned());
    v
}

/// The declared form of the winning-config-item layout.
pub open spec fn winning_config_item_group_is(s: Shape) -> bool {
    match s {
        Shape::Group(name, fields) => {
            &&& name@ == "WinningConfigItem"@
            &&& fields@.len() == 3
            &&& fields@[0].0@ == "safety_deposit_box_index"@
            &&& fields@[0].1 is U8
            &&& fields@[1].0@ == "amount"@
            &&& fields@[1].1 is U8
            &&& fields@[2].0@ == "winning_config_type"@
            &&& (match fields@[2].1 { Shape::Labels(l) => winning_config_type_labels_are(l), _ => false })
        },
        _ => false,
    }
}

/// Layout of one winning-config item.
fn winning_config_item_group() -> (r: Shape)
    ensures
        winning_config_item_group_is(r),
{
    let mut fields: Vec<(String, Shape)> = Vec::new();
    fields.push(("safety_deposit_box_index".to_owned(), Shape::U8));
    fields.push(("amount".to_owned(), Shape::U8));
    fields.push(("winning_config_type".to_owned(), Shape::Labels(winning_config_type_labels())));
    Shape::Group("WinningConfigItem".to_owned(), fields)
}

/// The declared form of the winning-config layout: the items kept in one
/// safety deposit box.
pub open spec fn winning_config_group_is(s: Shape) -> bool {
    match s {
        Shape::Group(name, fields) => {
            &&& name@ == "WinningConfig"@
            &&& fields@.len() == 1
            &&& fields@[0].0@ == "items"@
            &&& (match fields@[0].1 { Shape::Repeat(b) => winning_config_item_group_is((*b)), _ => false })
        },
        _ => false,
    }
}

/// Layout of one winning config: the items kept in one safety deposit box.
fn winning_config_group() -> (r: Shape)
    ensures
        winning_config_group_is(r),
{
    let mut fields: Vec<(String, Shape)> = Vec::new();
    fields.push(("items".to_owned(), Shape::Repeat(Box::new(winning_config_item_group()))));
    Shape::Group("WinningConfig".to_owned(), fields)
}

/// The declared form of the first-generation participation config.
pub open spec fn participation_config_v1_group_is(s: Shape) -> bool {
    match s {
        Shape::Group(name, fields) => {
            &&& name@ == "ParticipationConfigV1"@
            &&& fields@.len() == 4
            &&& fields@[0].0@ == "winner_constraint"@
            &&& (match fields@[0].1 { Shape::Labels(l) => winning_constraint_labels_are(l), _ => false })
            &&& fields@[1].0@ == "non_winning_constraint"@
            &&& (match fields@[1].1 { Shape::Labels(l) => non_winning_constraint_labels_are(l), _ => false })
            &&& fields@[2].0@ == "safety_deposit_box_index"@
            &&& fields@[2].1 is U8
            &&& fields@[3].0@ == "fixed_price"@
            &&& (match fields@[3].1 { Shape::Optional(b) => (*b) is U64, _ => false })
        },
        _ => false,
    }
}

/// Layout of the first-generation participation config.
fn participation_config_v1_group() -> (r: Shape)
    ensures
        participation_config_v1_group_is(r),
{
    let mut fields: Vec<(String, Shape)> = Vec::new();
    fields.push(("winner_constraint".to_owned(), Shape::Labels(winning_constraint_labels())));
    fields.push(("non_winning_constraint".to_owned(), Shape::Labels(non_winning_constraint_labels())));
    fields.push(("safety_deposit_box_index".to_owned(), Shape::U8));
    fields.push(("fixed_price".to_owned(), Shape::Optional(Box::new(Shape::U64))));
    Shape::Group("ParticipationConfigV1".to_owned(), fields)
}

/// The declared form of the second-generation participation config.
pub open spec fn participation_config_v2_group_is(s: Shape) -> bool {
    match s {
        Shape::Group(name, fields) => {
            &&& name@ == "ParticipationConfigV2"@
            &&& fields@.len() == 3
            &&& fields@[0].0@ == "winner_constraint"@
            &&& (match fields@[0].1 { Shape::Labels(l) => winning_constraint_labels_are(l), _ => false })
            &&& fields@[1].0@ == "non_winning_constraint"@
            &&& (match fields@[1].1 { Shape::Labels(l) => non_winning_constraint_labels_are(l), _ => false })
            &&& fields@[2].0@ == "fixed_price"@
            &&& (match fields@[2].1 { Shape::Optional(b) => (*b) is U64, _ => false })
        },
        _ => false,
    }
}

/// Layout of the second-generation participation config.
fn participation_config_v2_group() -> (r: Shape)
    ensures
        participation_config_v2_group_is(r),
{
    let mut fields: Vec<(String, Shape)> = Vec::new();
    fields.push(("winner_constraint".to_owned(), Shape::Labels(winning_constraint_labels())));
    fields.push(("non_winning_constraint".to_owned(), Shape::Labels(non_winning_constraint_labels())));
    fields.push(("fixed_price".to_owned(), Shape::Optional(Box::new(Shape::U64))));
    Shape::Group("ParticipationConfigV2".to_owned(), fields)
}

/// The declared form of the participation payout ledger.
pub open spec fn participation_state_v2_group_is(s: Shape) -> bool {
    match s {
        Shape::Group(name, fields) => {
            &&& name@ == "ParticipationStateV2"@
            &&& fields@.len() == 1
            &&& fields@[0].0@ == "collected_to_accept_payment"@
            &&& fields@[0].1 is U64
        },
        _ => false,
    }
}

/// Layout of the participation payout ledger.
fn participation_state_v2_group() -> (r: Shape)
    ensures
        participation_state_v2_group_is(r),
{
    let mut fields: Vec<(String, Shape)> = Vec::new();
    fields.push(("collected_to_accept_payment".to_owned(), Shape::U64));
    Shape::Group("ParticipationStateV2".to_owned(), fields)
}

/// The declared form of the amount-range layout: an unnamed pair of 64-bit
/// values.
pub open spec fn amount_range_group_is(s: Shape) -> bool {
    match s {
        Shape::Group(name, fields) => {
            &&& name@ == "AmountRange"@
            &&& fields@.len() == 2
            &&& fields@[0].0@ == ""@
            &&& fields@[0].1 is U64
            &&& fields@[1].0@ == ""@
            &&& fields@[1].1 is U64
        },
        _ => false,
    }
}

/// Layout of one amount range: a pair of editions given and length of the
/// range. Its fields are unnamed and print positionally.
fn amount_range_group() -> (r: Shape)
    ensures
        amount_range_group_is(r),
{
    let mut fields: Vec<(String, Shape)> = Vec::new();
    fields.push(("".to_owned(), Shape::U64));
    fields.push(("".to_owned(), Shape::U64));
    Shape::Group("AmountRange".to_owned(), fields)
}

/// The declared form of the price-reveal layout: a bare pair of price and
/// salt.
pub open spec fn reveal_group_is(s: Shape) -> bool {
    match s {
        Shape::Group(name, fields) => {
            &&& name@ == ""@
            &&& fields@.len() == 2
            &&& fields@[0].0@ == ""@
            &&& fields@[0].1 is U64
            &&& fields@[1].0@ == ""@
            &&& fields@[1].1 is U64
        },
        _ => false,
    }
}

/// Layout of the price reveal of a hidden-price auction: a bare pair of
/// price and salt.
fn reveal_group() -> (r: Shape)
    ensures
        reveal_group_is(r),
{
    let mut fields: Vec<(String, Shape)> = Vec::new();
    fields.push(("".to_owned(), Shape::U64));
    fields.push(("".to_owned(), Shape::U64));
    Shape::Group("".to_owned(), fields)
}

/// The registered form of the DeprecatedInitAuctionManagerV1 variant.
pub open spec fn deprecated_init_auction_manager_v1_variant_is(v: VariantDef) -> bool {
    &&& v.tag == 0
    &&& v.name@ == "DeprecatedInitAuctionManagerV1"@
    &&& v.fields@.len() == 2
    &&& field_is(v.fields@[0], "winning_configs"@, OutputMode::Rendered)
    &&& (match v.fields@[0].shape { Shape::Repeat(b) => winning_config_group_is((*b)), _ => false })
    &&& field_is(v.fields@[1], "participation_config"@, OutputMode::Rendered)
    &&& (match v.fields@[1].shape { Shape::Optional(b) => participation_config_v1_group_is((*b)), _ => false })
}

/// The registered form of the EmptyPaymentAccount variant.
pub open spec fn empty_payment_account_variant_is(v: VariantDef) -> bool {
    &&& v.tag == 7
    &&& v.name@ == "EmptyPaymentAccount"@
    &&& v.fields@.len() == 3
    &&& field_is(v.fields@[0], "winning_config_index"@, OutputMode::Plain)
    &&& (match v.fields@[0].shape { Shape::Optional(b) => (*b) is U8, _ => false })
    &&& field_is(v.fields@[1], "winning_config_item_index"@, OutputMode::Plain)
    &&& (match v.fields@[1].shape { Shape::Optional(b) => (*b) is U8, _ => false })
    &&& field_is(v.fields@[2], "creator_index"@, OutputMode::Plain)
    &&& (match v.fields@[2].shape { Shape::Optional(b) => (*b) is U8, _ => false })
}

/// The registered form of the SetStore variant.
pub open spec fn set_store_variant_is(v: VariantDef) -> bool {
    &&& v.tag == 8
    &&& v.name@ == "SetStore"@
    &&& v.fields@.len() == 1
    &&& field_is(v.fields@[0], "public"@, OutputMode::Plain)
    &&& v.fields@[0].shape is Boolean
}

/// The registered form of the SetWhitelistedCreator variant.
pub open spec fn set_whitelisted_creator_variant_is(v: VariantDef) -> bool {
    &&& v.tag == 9
    &&& v.name@ == "SetWhitelistedCreator"@
    &&& v.fields@.len() == 1
    &&& field_is(v.fields@[0], "activated"@, OutputMode::Plain)
    &&& v.fields@[0].shape is Boolean
}

/// The registered form of the RedeemUnusedWinningConfigItemsAsAuctioneer variant.
pub open spec fn redeem_unused_winning_config_items_as_auctioneer_variant_is(v: VariantDef) -> bool {
    &&& v.tag == 12
    &&& v.name@ == "RedeemUnusedWinningConfigItemsAsAuctioneer"@
    &&& v.fields@.len() == 2
    &&& field_is(v.fields@[0], "winning_config_item_index"@, OutputMode::Plain)
    &&& v.fields@[0].shape is U8
    &&& field_is(v.fields@[1], "proxy_call"@, OutputMode::Plain)
    &&& (match v.fields@[1].shape { Shape::Labels(l) => proxy_call_labels_are(l), _ => false })
}

/// The registered form of the RedeemPrintingV2Bid variant.
pub open spec fn redeem_printing_v2_bid_variant_is(v: VariantDef) -> bool {
    &&& v.tag == 14
    &&& v.name@ == "RedeemPrintingV2Bid"@
    &&& v.fields@.len() == 2
    &&& field_is(v.fields@[0], "edition_offset"@, OutputMode::Plain)
    &&& v.fields@[0].shape is U64
    &&& field_is(v.fields@[1], "win_index"@, OutputMode::Plain)
    &&& v.fields@[1].shape is U64
}

/// The registered form of the InitAuctionManagerV2 variant.
pub open spec fn init_auction_manager_v2_variant_is(v: VariantDef) -> bool {
    &&& v.tag == 17
    &&& v.name@ == "InitAuctionManagerV2"@
    &&& v.fields@.len() == 3
    &&& field_is(v.fields@[0], "amount_type"@, OutputMode::Plain)
    &&& (match v.fields@[0].shape { Shape::Labels(l) => tuple_numeric_type_labels_are(l), _ => false })
    &&& field_is(v.fields@[1], "length_type"@, OutputMode::Plain)
    &&& (match v.fields@[1].shape { Shape::Labels(l) => tuple_numeric_type_labels_are(l), _ => false })
    &&& field_is(v.fields@[2], "max_ranges"@, OutputMode::Plain)
    &&& v.fields@[2].shape is U64
}

/// The registered form of the ValidateSafetyDepositBoxV2 variant.
pub open spec fn validate_safety_deposit_box_v2_variant_is(v: VariantDef) -> bool {
    &&& v.tag == 18
    &&& v.name@ == "ValidateSafetyDepositBoxV2"@
    &&& v.fields@.len() == 9
    &&& field_is(v.fields@[0], "key"@, OutputMode::Plain)
    &&& (match v.fields@[0].shape { Shape::Labels(l) => key_kind_labels_are(l), _ => false })
    &&& field_is(v.fields@[1], "auction_manager"@, OutputMode::Rendered)
    &&& v.fields@[1].shape is Key
    &&& field_is(v.fields@[2], "order"@, OutputMode::Plain)
    &&& v.fields@[2].shape is U64
    &&& field_is(v.fields@[3], "winning_config_type"@, OutputMode::Plain)
    &&& (match v.fields@[3].shape { Shape::Labels(l) => winning_config_type_labels_are(l), _ => false })
    &&& field_is(v.fields@[4], "amount_type"@, OutputMode::Plain)
    &&& (match v.fields@[4].shape { Shape::Labels(l) => tuple_numeric_type_labels_are(l), _ => false })
    &&& field_is(v.fields@[5], "length_type"@, OutputMode::Plain)
    &&& (match v.fields@[5].shape { Shape::Labels(l) => tuple_numeric_type_labels_are(l), _ => false })
    &&& field_is(v.fields@[6], "amount_ranges"@, OutputMode::Rendered)
    &&& (match v.fields@[6].shape { Shape::Repeat(b) => amount_range_group_is((*b)), _ => false })
    &&& field_is(v.fields@[7], "participation_config"@, OutputMode::Rendered)
    &&& (match v.fields@[7].shape { Shape::Optional(b) => participation_config_v2_group_is((*b)), _ => false })
    &&& field_is(v.fields@[8], "participation_state"@, OutputMode::Rendered)
    &&& (match v.fields@[8].shape { Shape::Optional(b) => participation_state_v2_group_is((*b)), _ => false })
}

/// The registered form of the RedeemParticipationBidV3 variant.
pub open spec fn redeem_participation_bid_v3_variant_is(v: VariantDef) -> bool {
    &&& v.tag == 19
    &&& v.name@ == "RedeemParticipationBidV3"@
    &&& v.fields@.len() == 1
    &&& field_is(v.fields@[0], "win_index"@, OutputMode::Plain)
    &&& (match v.fields@[0].shape { Shape::Optional(b) => (*b) is U64, _ => false })
}

/// The registered form of the EndAuction variant.
pub open spec fn end_auction_variant_is(v: VariantDef) -> bool {
    &&& v.tag == 20
    &&& v.name@ == "EndAuction"@
    &&& v.fields@.len() == 1
    &&& field_is(v.fields@[0], "reveal"@, OutputMode::Nulled)
    &&& (match v.fields@[0].shape { Shape::Optional(b) => reveal_group_is((*b)), _ => false })
}

/// The registered form of the SetStoreIndex variant.
pub open spec fn set_store_index_variant_is(v: VariantDef) -> bool {
    &&& v.tag == 21
    &&& v.name@ == "SetStoreIndex"@
    &&& v.fields@.len() == 2
    &&& field_is(v.fields@[0], "page"@, OutputMode::Plain)
    &&& v.fields@[0].shape is U64
    &&& field_is(v.fields@[1], "offset"@, OutputMode::Plain)
    &&& v.fields@[1].shape is U64
}

/// The registered form of the SetStoreV2 variant.
pub open spec fn set_store_v2_variant_is(v: VariantDef) -> bool {
    &&& v.tag == 23
    &&& v.name@ == "SetStoreV2"@
    &&& v.fields@.len() == 2
    &&& field_is(v.fields@[0], "public"@, OutputMode::Plain)
    &&& v.fields@[0].shape is Boolean
    &&& field_is(v.fields@[1], "settings_uri"@, OutputMode::Nulled)
    &&& (match v.fields@[1].shape { Shape::Optional(b) => (*b) is Text, _ => false })
}

/// The full registered content of the auction-manager instruction registry:
/// every published tag with its variant name and the keys, shapes and
/// output modes of its declared payload fields.
pub open spec fn registry_is(r: Registry) -> bool {
    &&& r.variants@.len() == 24
    &&& deprecated_init_auction_manager_v1_variant_is(r.variants@[0])
    &&& unit_variant_is(r.variants@[1], 1, "DeprecatedValidateSafetyDepositBoxV1"@)
    &&& unit_variant_is(r.variants@[2], 2, "RedeemBid"@)
    &&& unit_variant_is(r.variants@[3], 3, "RedeemFullRightsTransferBid"@)
    &&& unit_variant_is(r.variants@[4], 4, "DeprecatedRedeemParticipationBid"@)
    &&& unit_variant_is(r.variants@[5], 5, "StartAuction"@)
    &&& unit_variant_is(r.variants@[6], 6, "ClaimBid"@)
    &&& empty_payment_account_variant_is(r.variants@[7])
    &&& set_store_variant_is(r.variants@[8])
    &&& set_whitelisted_creator_variant_is(r.variants@[9])
    &&& unit_variant_is(r.variants@[10], 10, "DeprecatedValidateParticipation"@)
    &&& unit_variant_is(r.variants@[11], 11, "DeprecatedPopulateParticipationPrintingAccount"@)
    &&& redeem_unused_winning_config_items_as_auctioneer_variant_is(r.variants@[12])
    &&& unit_variant_is(r.variants@[13], 13, "DecommissionAuctionManager"@)
    &&& redeem_printing_v2_bid_variant_is(r.variants@[14])
    &&& unit_variant_is(r.variants@[15], 15, "WithdrawMasterEdition"@)
    &&& unit_variant_is(r.variants@[16], 16, "DeprecatedRedeemParticipationBidV2"@)
    &&& init_auction_manager_v2_variant_is(r.variants@[17])
    &&& validate_safety_deposit_box_v2_variant_is(r.variants@[18])
    &&& redeem_participation_bid_v3_variant_is(r.variants@[19])
    &&& end_auction_variant_is(r.variants@[20])
    &&& set_store_index_variant_is(r.variants@[21])
    &&& unit_variant_is(r.variants@[22], 22, "SetAuctionCache"@)
    &&& set_store_v2_variant_is(r.variants@[23])
}

/// The auction-manager program's instruction registry: every published tag
/// with its variant name and payload layout, densely numbered from zero.
pub struct InstructionParser {
    pub registry: Registry,
}

impl InstructionParser {
    /// Builds the registry, with its full content as `registry_is`
    /// states it.
    pub fn new() -> (r: InstructionParser)
        ensures
            registry_is(r.registry),
    {
        let mut vs: Vec<VariantDef> = Vec::new();
        let mut deprecated_init_auction_manager_v1_fields: Vec<FieldDef> = Vec::new();
        deprecated_init_auction_manager_v1_fields.push(field_def("winning_configs", Shape::Repeat(Box::new(winning_config_group())), OutputMode::Rendered));
        deprecated_init_auction_manager_v1_fields.push(field_def("participation_config", Shape::Optional(Box::new(participation_config_v1_group())), OutputMode::Rendered));
        vs.push(variant_def(0, "DeprecatedInitAuctionManagerV1", deprecated_init_auction_manager_v1_fields));
        vs.push(unit_variant(1, "DeprecatedValidateSafetyDepositBoxV1"));
        vs.push(unit_variant(2, "RedeemBid"));
        vs.push(unit_variant(3, "RedeemFullRightsTransferBid"));
        vs.push(unit_variant(4, "DeprecatedRedeemParticipationBid"));
        vs.push(unit_variant(5, "StartAuction"));
        vs.push(unit_variant(6, "ClaimBid"));
        let mut empty_payment_account_fields: Vec<FieldDef> = Vec::new();
        empty_payment_account_fields.push(field_def("winning_config_index", Shape::Optional(Box::new(Shape::U8)), OutputMode::Plain));
        empty_payment_account_fields.push(field_def("winning_config_item_index", Shape::Optional(Box::new(Shape::U8)), OutputMode::Plain));
        empty_payment_account_fields.push(field_def("creator_index", Shape::Optional(Box::new(Shape::U8)), OutputMode::Plain));
        vs.push(variant_def(7, "EmptyPaymentAccount", empty_payment_account_fields));
        let mut set_store_fields: Vec<FieldDef> = Vec::new();
        set_store_fields.push(field_def("public", Shape::Boolean, OutputMode::Plain));
        vs.push(variant_def(8, "SetStore", set_store_fields));
        let mut set_whitelisted_creator_fields: Vec<FieldDef> = Vec::new();
        set_whitelisted_creator_fields.push(field_def("activated", Shape::Boolean, OutputMode::Plain));
        vs.push(variant_def(9, "SetWhitelistedCreator", set_whitelisted_creator_fields));
        vs.push(unit_variant(10, "DeprecatedValidateParticipation"));
        vs.push(unit_variant(11, "DeprecatedPopulateParticipationPrintingAccount"));
        let mut redeem_unused_winning_config_items_as_auctioneer_fields: Vec<FieldDef> = Vec::new();
        redeem_unused_winning_config_items_as_auctioneer_fields.push(field_def("winning_config_item_index", Shape::U8, OutputMode::Plain));
        redeem_unused_winning_config_items_as_auctioneer_fields.push(field_def("proxy_call", Shape::Labels(proxy_call_labels()), OutputMode::Plain));
        vs.push(variant_def(12, "RedeemUnusedWinningConfigItemsAsAuctioneer", redeem_unused_winning_config_items_as_auctioneer_fields));
        vs.push(unit_variant(13, "DecommissionAuctionManager"));
        let mut redeem_printing_v2_bid_fields: Vec<FieldDef> = Vec::new();
        redeem_printing_v2_bid_fields.push(field_def("edition_offset", Shape::U64, OutputMode::Plain));
        redeem_printing_v2_bid_fields.push(field_def("win_index", Shape::U64, OutputMode::Plain));
        vs.push(variant_def(14, "RedeemPrintingV2Bid", redeem_printing_v2_bid_fields));
        vs.push(unit_variant(15, "WithdrawMasterEdition"));
        vs.push(unit_variant(16, "DeprecatedRedeemParticipationBidV2"));
        let mut init_auction_manager_v2_fields: Vec<FieldDef> = Vec::new();
        init_auction_manager_v2_fields.push(field_def("amount_type", Shape::Labels(tuple_numeric_type_labels()), OutputMode::Plain));
        init_auction_manager_v2_fields.push(field_def("length_type", Shape::Labels(tuple_numeric_type_labels()), OutputMode::Plain));
        init_auction_manager_v2_fields.push(field_def("max_ranges", Shape::U64, OutputMode::Plain));
        vs.push(variant_def(17, "InitAuctionManagerV2", init_auction_manager_v2_fields));
        let mut validate_safety_deposit_box_v2_fields: Vec<FieldDef> = Vec::new();
        validate_safety_deposit_box_v2_fields.push(field_def("key", Shape::Labels(key_kind_labels()), OutputMode::Plain));
        validate_safety_deposit_box_v2_fields.push(field_def("auction_manager", Shape::Key, OutputMode::Rendered));
        validate_safety_deposit_box_v2_fields.push(field_def("order", Shape::U64, OutputMode::Plain));
        validate_safety_deposit_box_v2_fields.push(field_def("winning_config_type", Shape::Labels(winning_config_type_labels()), OutputMode::Plain));
        validate_safety_deposit_box_v2_fields.push(field_def("amount_type", Shape::Labels(tuple_numeric_type_labels()), OutputMode::Plain));
        validate_safety_deposit_box_v2_fields.push(field_def("length_type", Shape::Labels(tuple_numeric_type_labels()), OutputMode::Plain));
        validate_safety_deposit_box_v2_fields.push(field_def("amount_ranges", Shape::Repeat(Box::new(amount_range_group())), OutputMode::Rendered));
        validate_safety_deposit_box_v2_fields.push(field_def("participation_config", Shape::Optional(Box::new(participation_config_v2_group())), OutputMode::Rendered));
        validate_safety_deposit_box_v2_fields.push(field_def("participation_state", Shape::Optional(Box::new(participation_state_v2_group())), OutputMode::Rendered));
        vs.push(variant_def(18, "ValidateSafetyDepositBoxV2", validate_safety_deposit_box_v2_fields));
        let mut redeem_participation_bid_v3_fields: Vec<FieldDef> = Vec::new();
        redeem_participation_bid_v3_fields.push(field_def("win_index", Shape::Optional(Box::new(Shape::U64)), OutputMode::Plain));
        vs.push(variant_def(19, "RedeemParticipationBidV3", redeem_participation_bid_v3_fields));
        let mut end_auction_fields: Vec<FieldDef> = Vec::new();
        end_auction_fields.push(field_def("reveal", Shape::Optional(Box::new(reveal_group())), OutputMode::Nulled));
        vs.push(variant_def(20, "EndAuction", end_auction_fields));
        let mut set_store_index_fields: Vec<FieldDef> = Vec::new();
        set_store_index_fields.push(field_def("page", Shape::U64, OutputMode::Plain));
        set_store_index_fields.push(field_def("offset", Shape::U64, OutputMode::Plain));
        vs.push(variant_def(21, "SetStoreIndex", set_store_index_fields));
        vs.push(unit_variant(22, "SetAuctionCache"));
        let mut set_store_v2_fields: Vec<FieldDef> = Vec::new();
        set_store_v2_fields.push(field_def("public", Shape::Boolean, OutputMode::Plain));
        set_store_v2_fields.push(field_def("settings_uri", Shape::Optional(Box::new(Shape::Text)), OutputMode::Nulled));
        vs.push(variant_def(23, "SetStoreV2", set_store_v2_fields));
        proof {
            assert(deprecated_init_auction_manager_v1_variant_is(vs@[0]));
            assert(unit_variant_is(vs@[1], 1, "DeprecatedValidateSafetyDepositBoxV1"@));
            assert(unit_variant_is(vs@[2], 2, "RedeemBid"@));
            assert(unit_variant_is(vs@[3], 3, "RedeemFullRightsTransferBid"@));
            assert(unit_variant_is(vs@[4], 4, "DeprecatedRedeemParticipationBid"@));
            assert(unit_variant_is(vs@[5], 5, "StartAuction"@));
            assert(unit_variant_is(vs@[6], 6, "ClaimBid"@));
            assert(empty_payment_account_variant_is(vs@[7]));
            assert(set_store_variant_is(vs@[8]));
            assert(set_whitelisted_creator_variant_is(vs@[9]));
            assert(unit_variant_is(vs@[10], 10, "DeprecatedValidateParticipation"@));
            assert(unit_variant_is(vs@[11], 11, "DeprecatedPopulateParticipationPrintingAccount"@));
            assert(redeem_unused_winning_config_items_as_auctioneer_variant_is(vs@[12]));
            assert(unit_variant_is(vs@[13], 13, "DecommissionAuctionManager"@));
            assert(redeem_printing_v2_bid_variant_is(vs@[14]));
            assert(unit_variant_is(vs@[15], 15, "WithdrawMasterEdition"@));
            assert(unit_variant_is(vs@[16], 16, "DeprecatedRedeemParticipationBidV2"@));
            assert(init_auction_manager_v2_variant_is(vs@[17]));
            assert(validate_safety_deposit_box_v2_variant_is(vs@[18]));
            assert(redeem_participation_bid_v3_variant_is(vs@[19]));
            assert(end_auction_variant_is(vs@[20]));
            assert(set_store_index_variant_is(vs@[21]));
            assert(unit_variant_is(vs@[22], 22, "SetAuctionCache"@));
            assert(set_store_v2_variant_is(vs@[23]));
        }
        InstructionParser { registry: Registry { variants: vs } }
    }

    /// Decodes raw instruction bytes against this program's registry into a
    /// transport record, exactly as `decoder::decode` specifies.
    pub fn unpack_instruction(&self, input: &[u8]) -> (r: Result<TransportValue, DecodeError>)
        ensures
            match spec_decode(self.registry, input@) {
                Ok(m) => r matches Ok(tv) && tv@ == m,
                Err(e) => r matches Err(err) && err == e,
            },
    {
        decode(&self.registry, input)
    }
}

/// The full content of the dispatch table: every handled record name,
/// in registration order, with its account-enrichment flag.
pub open spec fn table_is(t: HandlerTable) -> bool {
    &&& t.entries@.len() == 24
    &&& handler_entry_is(t.entries@[0], "DeprecatedInitAuctionManagerV1"@, false)
    &&& handler_entry_is(t.entries@[1], "DeprecatedValidateSafetyDepositBoxV1"@, false)
    &&& handler_entry_is(t.entries@[2], "RedeemBid"@, false)
    &&& handler_entry_is(t.entries@[3], "RedeemFullRightsTransferBid"@, false)
    &&& handler_entry_is(t.entries@[4], "DeprecatedRedeemParticipationBid"@, false)
    &&& handler_entry_is(t.entries@[5], "StartAuction"@, false)
    &&& handler_entry_is(t.entries@[6], "ClaimBid"@, false)
    &&& handler_entry_is(t.entries@[7], "EmptyPaymentAccount"@, false)
    &&& handler_entry_is(t.entries@[8], "SetStore"@, false)
    &&& handler_entry_is(t.entries@[9], "SetWhitelistedCreator"@, false)
    &&& handler_entry_is(t.entries@[10], "DeprecatedValidateParticipation"@, false)
    &&& handler_entry_is(t.entries@[11], "DeprecatedPopulateParticipationPrintingAccount"@, false)
    &&& handler_entry_is(t.entries@[12], "RedeemUnusedWinningConfigItemsAsAuctioneer"@, false)
    &&& handler_entry_is(t.entries@[13], "DecommissionAuctionManager"@, false)
    &&& handler_entry_is(t.entries@[14], "RedeemPrintingV2Bid"@, false)
    &&& handler_entry_is(t.entries@[15], "WithdrawMasterEdition"@, false)
    &&& handler_entry_is(t.entries@[16], "DeprecatedRedeemParticipationBidV2"@, false)
    &&& handler_entry_is(t.entries@[17], "InitAuctionManagerV2"@, false)
    &&& handler_entry_is(t.entries@[18], "ValidateSafetyDepositBoxV2"@, false)
    &&& handler_entry_is(t.entries@[19], "RedeemParticipationBidV3"@, false)
    &&& handler_entry_is(t.entries@[20], "EndAuction"@, false)
    &&& handler_entry_is(t.entries@[21], "SetStoreIndex"@, false)
    &&& handler_entry_is(t.entries@[22], "SetAuctionCache"@, false)
    &&& handler_entry_is(t.entries@[23], "SetStoreV2"@, false)
}

/// The auction-manager program's dispatch handler.
pub struct Handler {
    pub table: HandlerTable,
}

impl Handler {
    /// Builds the dispatch table, with its full content as `table_is`
    /// states it: none of the variants is enriched with an account reference.
    pub fn new() -> (r: Handler)
        ensures
            table_is(r.table),
    {
        let mut es: Vec<HandlerEntry> = Vec::new();
        es.push(HandlerEntry { name: "DeprecatedInitAuctionManagerV1".to_owned(), with_account: false });
        es.push(HandlerEntry { name: "DeprecatedValidateSafetyDepositBoxV1".to_owned(), with_account: false });
        es.push(HandlerEntry { name: "RedeemBid".to_owned(), with_account: false });
        es.push(HandlerEntry { name: "RedeemFullRightsTransferBid".to_owned(), with_account: false });
        es.push(HandlerEntry { name: "DeprecatedRedeemParticipationBid".to_owned(), with_account: false });
        es.push(HandlerEntry { name: "StartAuction".to_owned(), with_account: false });
        es.push(HandlerEntry { name: "ClaimBid".to_owned(), with_account: false });
        es.push(HandlerEntry { name: "EmptyPaymentAccount".to_owned(), with_account: false });
        es.push(HandlerEntry { name: "SetStore".to_owned(), with_account: false });
        es.push(HandlerEntry { name: "SetWhitelistedCreator".to_owned(), with_account: false });
        es.push(HandlerEntry { name: "DeprecatedValidateParticipation".to_owned(), with_account: false });
        es.push(HandlerEntry { name: "DeprecatedPopulateParticipationPrintingAccount".to_owned(), with_account: false });
        es.push(HandlerEntry { name: "RedeemUnusedWinningConfigItemsAsAuctioneer".to_owned(), with_account: false });
        es.push(HandlerEntry { name: "DecommissionAuctionManager".to_owned(), with_account: false });
        es.push(HandlerEntry { name: "RedeemPrintingV2Bid".to_owned(), with_account: false });
        es.push(HandlerEntry { name: "WithdrawMasterEdition".to_owned(), with_account: false });
        es.push(HandlerEntry { name: "DeprecatedRedeemParticipationBidV2".to_owned(), with_account: false });
        es.push(HandlerEntry { name: "InitAuctionManagerV2".to_owned(), with_account: false });
        es.push(HandlerEntry { name: "ValidateSafetyDepositBoxV2".to_owned(), with_account: false });
        es.push(HandlerEntry { name: "RedeemParticipationBidV3".to_owned(), with_account: false });
        es.push(HandlerEntry { name: "EndAuction".to_owned(), with_account: false });
        es.push(HandlerEntry { name: "SetStoreIndex".to_owned(), with_account: false });
        es.push(HandlerEntry { name: "SetAuctionCache".to_owned(), with_account: false });
        es.push(HandlerEntry { name: "SetStoreV2".to_owned(), with_account: false });
        Handler { table: HandlerTable { entries: es } }
    }

    /// Dispatches one decoded record: known names are enriched with the
    /// context fields their table entry declares and handed to the store;
    /// unknown names are dropped silently.
    pub fn process<S: IndexStore>(
        &self,
        ctx: &Context,
        input: TransportValue,
        store: &mut S,
    ) -> (r: Option<TransportValue>)
        ensures
            match find_entry(self.table.entries@, input@.name) {
                Some(e) => r matches Some(out) && out@.name == input@.name && out@.values
                    == enriched_values(input@.values, *ctx, e.with_account),
                None => r is None,
            },
    {
        dispatch(&self.table, ctx, input, store)
    }
}

} // verus!
