//! Timestamps, subscriptions and account data.

use crate::protobuf::anylist::double::Double;
use vstd::prelude::*;

verus! {

/// The `PbTimestamp` message: timestamp.
#[derive(Clone, PartialEq, Debug)]
pub struct PbTimestamp {
    pub identifier: Option<String>,
    pub timestamp: Option<Double>,
}

/// The mathematical value of a [`PbTimestamp`].
#[verifier::ext_equal]
pub ghost struct PbTimestampView {
    pub identifier: Option<Seq<char>>,
    pub timestamp: Option<Double>,
}

impl PbTimestampView {
    /// The message with no field set.
    pub open spec fn blank() -> PbTimestampView {
        PbTimestampView {
            identifier: None,
            timestamp: None,
        }
    }
}

impl DeepView for PbTimestamp {
    type V = PbTimestampView;

    open spec fn deep_view(&self) -> PbTimestampView {
        PbTimestampView {
            identifier: self.identifier.deep_view(),
            timestamp: self.timestamp.deep_view(),
        }
    }
}

impl Default for PbTimestamp {
    /// The message with no field set.
    fn default() -> (message: Self)
        ensures
            message.deep_view() == PbTimestampView::blank(),
    {
        PbTimestamp {
            identifier: None,
            timestamp: None,
        }
    }
}

/// The `PbTimestampList` message: timestamp list.
#[derive(Clone, PartialEq, Debug)]
pub struct PbTimestampList {
    pub timestamps: Vec<PbTimestamp>,
}

/// The mathematical value of a [`PbTimestampList`].
#[verifier::ext_equal]
pub ghost struct PbTimestampListView {
    pub timestamps: Seq<PbTimestampView>,
}

impl PbTimestampListView {
    /// The message with no field set.
    pub open spec fn blank() -> PbTimestampListView {
        PbTimestampListView {
            timestamps: Seq::empty(),
        }
    }
}

impl DeepView for PbTimestampList {
    type V = PbTimestampListView;

    open spec fn deep_view(&self) -> PbTimestampListView {
        PbTimestampListView {
            timestamps: self.timestamps.deep_view(),
        }
    }
}

impl Default for PbTimestampList {
    /// The message with no field set.
    fn default() -> (message: Self)
        ensures
            message.deep_view() == PbTimestampListView::blank(),
    {
        let message = PbTimestampList {
            timestamps: Vec::new(),
        };
        assert(message.deep_view() =~~= PbTimestampListView::blank());
        message
    }
}

/// The `PbLogicalTimestamp` message: logical timestamp.
#[derive(Clone, PartialEq, Debug)]
pub struct PbLogicalTimestamp {
    pub identifier: Option<String>,
    pub logical_timestamp: Option<u64>,
    pub description: Option<String>,
}

/// The mathematical value of a [`PbLogicalTimestamp`].
#[verifier::ext_equal]
pub ghost struct PbLogicalTimestampView {
    pub identifier: Option<Seq<char>>,
    pub logical_timestamp: Option<u64>,
    pub description: Option<Seq<char>>,
}

impl PbLogicalTimestampView {
    /// The message with no field set.
    pub open spec fn blank() -> PbLogicalTimestampView {
        PbLogicalTimestampView {
            identifier: None,
            logical_timestamp: None,
            description: None,
        }
    }
}

impl DeepView for PbLogicalTimestamp {
    type V = PbLogicalTimestampView;

    open spec fn deep_view(&self) -> PbLogicalTimestampView {
        PbLogicalTimestampView {
            identifier: self.identifier.deep_view(),
            logical_timestamp: self.logical_timestamp.deep_view(),
            description: self.description.deep_view(),
        }
    }
}

impl Default for PbLogicalTimestamp {
    /// The message with no field set.
    fn default() -> (message: Self)
        ensures
            message.deep_view() == PbLogicalTimestampView::blank(),
    {
        PbLogicalTimestamp {
            identifier: None,
            logical_timestamp: None,
            description: None,
        }
    }
}

/// The `PbLogicalTimestampList` message: logical timestamp list.
#[derive(Clone, PartialEq, Debug)]
pub struct PbLogicalTimestampList {
    pub timestamps: Vec<PbLogicalTimestamp>,
}

/// The mathematical value of a [`PbLogicalTimestampList`].
#[verifier::ext_equal]
pub ghost struct PbLogicalTimestampListView {
    pub timestamps: Seq<PbLogicalTimestampView>,
}

impl PbLogicalTimestampListView {
    /// The message with no field set.
    pub open spec fn blank() -> PbLogicalTimestampListView {
        PbLogicalTimestampListView {
            timestamps: Seq::empty(),
        }
    }
}

impl DeepView for PbLogicalTimestampList {
    type V = PbLogicalTimestampListView;

    open spec fn deep_view(&self) -> PbLogicalTimestampListView {
        PbLogicalTimestampListView {
            timestamps: self.timestamps.deep_view(),
        }
    }
}

impl Default for PbLogicalTimestampList {
    /// The message with no field set.
    fn default() -> (message: Self)
        ensures
            message.deep_view() == PbLogicalTimestampListView::blank(),
    {
        let message = PbLogicalTimestampList {
            timestamps: Vec::new(),
        };
        assert(message.deep_view() =~~= PbLogicalTimestampListView::blank());
        message
    }
}

/// The `PbEditOperationResponse` message: edit operation response.
#[derive(Clone, PartialEq, Debug)]
pub struct PbEditOperationResponse {
    pub original_timestamps: Vec<PbTimestamp>,
    pub new_timestamps: Vec<PbTimestamp>,
    pub processed_operations: Vec<String>,
    pub original_logical_timestamps: Vec<PbLogicalTimestamp>,
    pub current_logical_timestamps: Vec<PbLogicalTimestamp>,
    pub full_refresh_timestamp_ids: Vec<String>,
}

/// The mathematical value of a [`PbEditOperationResponse`].
#[verifier::ext_equal]
pub ghost struct PbEditOperationResponseView {
    pub original_timestamps: Seq<PbTimestampView>,
    pub new_timestamps: Seq<PbTimestampView>,
    pub processed_operations: Seq<Seq<char>>,
    pub original_logical_timestamps: Seq<PbLogicalTimestampView>,
    pub current_logical_timestamps: Seq<PbLogicalTimestampView>,
    pub full_refresh_timestamp_ids: Seq<Seq<char>>,
}

impl PbEditOperationResponseView {
    /// The message with no field set.
    pub open spec fn blank() -> PbEditOperationResponseView {
        PbEditOperationResponseView {
            original_timestamps: Seq::empty(),
            new_timestamps: Seq::empty(),
            processed_operations: Seq::empty(),
            original_logical_timestamps: Seq::empty(),
            current_logical_timestamps: Seq::empty(),
            full_refresh_timestamp_ids: Seq::empty(),
        }
    }
}

impl DeepView for PbEditOperationResponse {
    type V = PbEditOperationResponseView;

    open spec fn deep_view(&self) -> PbEditOperationResponseView {
        PbEditOperationResponseView {
            original_timestamps: self.original_timestamps.deep_view(),
            new_timestamps: self.new_timestamps.deep_view(),
            processed_operations: self.processed_operations.deep_view(),
            original_logical_timestamps: self.original_logical_timestamps.deep_view(),
            current_logical_timestamps: self.current_logical_timestamps.deep_view(),
            full_refresh_timestamp_ids: self.full_refresh_timestamp_ids.deep_view(),
        }
    }
}

impl Default for PbEditOperationResponse {
    /// The message with no field set.
    fn default() -> (message: Self)
        ensures
            message.deep_view() == PbEditOperationResponseView::blank(),
    {
        let message = PbEditOperationResponse {
            original_timestamps: Vec::new(),
            new_timestamps: Vec::new(),
            processed_operations: Vec::new(),
            original_logical_timestamps: Vec::new(),
            current_logical_timestamps: Vec::new(),
            full_refresh_timestamp_ids: Vec::new(),
        };
        assert(message.deep_view() =~~= PbEditOperationResponseView::blank());
        message
    }
}

/// The `PbUserSubscriptionInfo` message: user subscription info.
#[derive(Clone, PartialEq, Debug)]
pub struct PbUserSubscriptionInfo {
    pub identifier: String,
    pub subscription_is_active: Option<bool>,
    pub subscription_management_system: Option<i32>,
    pub expiration_timestamp_ms_str: Option<String>,
    pub expiration_timestamp_ms: Option<i64>,
    pub subscription_type: Option<i32>,
    pub master_user: Option<PbEmailUserIdPair>,
    pub subusers: Vec<PbEmailUserIdPair>,
    pub nonrenew_iap_receipts: Vec<PbiapReceipt>,
    pub autorenew_iap_receipts: Vec<PbiapReceipt>,
    pub nonrenew_stripe_charges: Vec<PbStripeCharge>,
    pub google_play_purchases: Vec<PbGooglePlayPurchase>,
    pub google_play_purchase_token: Option<String>,
    pub google_play_order_ids: Vec<String>,
    pub subuser_limit: Option<i32>,
    pub sent_email_identifiers: Vec<String>,
    pub user_confirmed_not_renewing: Option<bool>,
}

/// The mathematical value of a [`PbUserSubscriptionInfo`].
#[verifier::ext_equal]
pub ghost struct PbUserSubscriptionInfoView {
    pub identifier: Seq<char>,
    pub subscription_is_active: Option<bool>,
    pub subscription_management_system: Option<i32>,
    pub expiration_timestamp_ms_str: Option<Seq<char>>,
    pub expiration_timestamp_ms: Option<i64>,
    pub subscription_type: Option<i32>,
    pub master_user: Option<PbEmailUserIdPairView>,
    pub subusers: Seq<PbEmailUserIdPairView>,
    pub nonrenew_iap_receipts: Seq<PbiapReceiptView>,
    pub autorenew_iap_receipts: Seq<PbiapReceiptView>,
    pub nonrenew_stripe_charges: Seq<PbStripeChargeView>,
    pub google_play_purchases: Seq<PbGooglePlayPurchaseView>,
    pub google_play_purchase_token: Option<Seq<char>>,
    pub google_play_order_ids: Seq<Seq<char>>,
    pub subuser_limit: Option<i32>,
    pub sent_email_identifiers: Seq<Seq<char>>,
    pub user_confirmed_not_renewing: Option<bool>,
}

impl PbUserSubscriptionInfoView {
    /// The message with no field set.
    pub open spec fn blank() -> PbUserSubscriptionInfoView {
        PbUserSubscriptionInfoView {
            identifier: Seq::empty(),
            subscription_is_active: None,
            subscription_management_system: None,
            expiration_timestamp_ms_str: None,
            expiration_timestamp_ms: None,
            subscription_type: None,
            master_user: None,
            subusers: Seq::empty(),
            nonrenew_iap_receipts: Seq::empty(),
            autorenew_iap_receipts: Seq::empty(),
            nonrenew_stripe_charges: Seq::empty(),
            google_play_purchases: Seq::empty(),
            google_play_purchase_token: None,
            google_play_order_ids: Seq::empty(),
            subuser_limit: None,
            sent_email_identifiers: Seq::empty(),
            user_confirmed_not_renewing: None,
        }
    }
}

impl DeepView for PbUserSubscriptionInfo {
    type V = PbUserSubscriptionInfoView;

    open spec fn deep_view(&self) -> PbUserSubscriptionInfoView {
        PbUserSubscriptionInfoView {
            identifier: self.identifier.deep_view(),
            subscription_is_active: self.subscription_is_active.deep_view(),
            subscription_management_system: self.subscription_management_system.deep_view(),
            expiration_timestamp_ms_str: self.expiration_timestamp_ms_str.deep_view(),
            expiration_timestamp_ms: self.expiration_timestamp_ms.deep_view(),
            subscription_type: self.subscription_type.deep_view(),
            master_user: self.master_user.deep_view(),
            subusers: self.subusers.deep_view(),
            nonrenew_iap_receipts: self.nonrenew_iap_receipts.deep_view(),
            autorenew_iap_receipts: self.autorenew_iap_receipts.deep_view(),
            nonrenew_stripe_charges: self.nonrenew_stripe_charges.deep_view(),
            google_play_purchases: self.google_play_purchases.deep_view(),
            google_play_purchase_token: self.google_play_purchase_token.deep_view(),
            google_play_order_ids: self.google_play_order_ids.deep_view(),
            subuser_limit: self.subuser_limit.deep_view(),
            sent_email_identifiers: self.sent_email_identifiers.deep_view(),
            user_confirmed_not_renewing: self.user_confirmed_not_renewing.deep_view(),
        }
    }
}

impl Default for PbUserSubscriptionInfo {
    /// The message with no field set.
    fn default() -> (message: Self)
        ensures
            message.deep_view() == PbUserSubscriptionInfoView::blank(),
    {
        let message = PbUserSubscriptionInfo {
            identifier: String::new(),
            subscription_is_active: None,
            subscription_management_system: None,
            expiration_timestamp_ms_str: None,
            expiration_timestamp_ms: None,
            subscription_type: None,
            master_user: None,
            subusers: Vec::new(),
            nonrenew_iap_receipts: Vec::new(),
            autorenew_iap_receipts: Vec::new(),
            nonrenew_stripe_charges: Vec::new(),
            google_play_purchases: Vec::new(),
            google_play_purchase_token: None,
            google_play_order_ids: Vec::new(),
            subuser_limit: None,
            sent_email_identifiers: Vec::new(),
            user_confirmed_not_renewing: None,
        };
        assert(message.deep_view() =~~= PbUserSubscriptionInfoView::blank());
        message
    }
}

/// The `PbiapReceipt` message: iap receipt.
#[derive(Clone, PartialEq, Debug)]
pub struct PbiapReceipt {
    pub transaction_id: Option<String>,
    pub receipt_data: Option<Vec<u8>>,
    pub parsed_receipt: Option<String>,
}

/// The mathematical value of a [`PbiapReceipt`].
#[verifier::ext_equal]
pub ghost struct PbiapReceiptView {
    pub transaction_id: Option<Seq<char>>,
    pub receipt_data: Option<Seq<u8>>,
    pub parsed_receipt: Option<Seq<char>>,
}

impl PbiapReceiptView {
    /// The message with no field set.
    pub open spec fn blank() -> PbiapReceiptView {
        PbiapReceiptView {
            transaction_id: None,
            receipt_data: None,
            parsed_receipt: None,
        }
    }
}

impl DeepView for PbiapReceipt {
    type V = PbiapReceiptView;

    open spec fn deep_view(&self) -> PbiapReceiptView {
        PbiapReceiptView {
            transaction_id: self.transaction_id.deep_view(),
            receipt_data: self.receipt_data.deep_view(),
            parsed_receipt: self.parsed_receipt.deep_view(),
        }
    }
}

impl Default for PbiapReceipt {
    /// The message with no field set.
    fn default() -> (message: Self)
        ensures
            message.deep_view() == PbiapReceiptView::blank(),
    {
        PbiapReceipt {
            transaction_id: None,
            receipt_data: None,
            parsed_receipt: None,
        }
    }
}

/// The `PbStripeCharge` message: stripe charge.
#[derive(Clone, PartialEq, Debug)]
pub struct PbStripeCharge {
    pub charge_id: Option<String>,
    pub charge: Option<String>,
}

/// The mathematical value of a [`PbStripeCharge`].
#[verifier::ext_equal]
pub ghost struct PbStripeChargeView {
    pub charge_id: Option<Seq<char>>,
    pub charge: Option<Seq<char>>,
}

impl PbStripeChargeView {
    /// The message with no field set.
    pub open spec fn blank() -> PbStripeChargeView {
        PbStripeChargeView {
            charge_id: None,
            charge: None,
        }
    }
}

impl DeepView for PbStripeCharge {
    type V = PbStripeChargeView;

    open spec fn deep_view(&self) -> PbStripeChargeView {
        PbStripeChargeView {
            charge_id: self.charge_id.deep_view(),
            charge: self.charge.deep_view(),
        }
    }
}

impl Default for PbStripeCharge {
    /// The message with no field set.
    fn default() -> (message: Self)
        ensures
            message.deep_view() == PbStripeChargeView::blank(),
    {
        PbStripeCharge {
            charge_id: None,
            charge: None,
        }
    }
}

/// The `PbGooglePlayPurchase` message: google play purchase.
#[derive(Clone, PartialEq, Debug)]
pub struct PbGooglePlayPurchase {
    pub order_id: Option<String>,
    pub purchase_token: Option<String>,
    pub purchase_info: Option<String>,
}

/// The mathematical value of a [`PbGooglePlayPurchase`].
#[verifier::ext_equal]
pub ghost struct PbGooglePlayPurchaseView {
    pub order_id: Option<Seq<char>>,
    pub purchase_token: Option<Seq<char>>,
    pub purchase_info: Option<Seq<char>>,
}

impl PbGooglePlayPurchaseView {
    /// The message with no field set.
    pub open spec fn blank() -> PbGooglePlayPurchaseView {
        PbGooglePlayPurchaseView {
            order_id: None,
            purchase_token: None,
            purchase_info: None,
        }
    }
}

impl DeepView for PbGooglePlayPurchase {
    type V = PbGooglePlayPurchaseView;

    open spec fn deep_view(&self) -> PbGooglePlayPurchaseView {
        PbGooglePlayPurchaseView {
            order_id: self.order_id.deep_view(),
            purchase_token: self.purchase_token.deep_view(),
            purchase_info: self.purchase_info.deep_view(),
        }
    }
}

impl Default for PbGooglePlayPurchase {
    /// The message with no field set.
    fn default() -> (message: Self)
        ensures
            message.deep_view() == PbGooglePlayPurchaseView::blank(),
    {
        PbGooglePlayPurchase {
            order_id: None,
            purchase_token: None,
            purchase_info: None,
        }
    }
}

/// The `PbUserEmailInfo` message: user email info.
#[derive(Clone, PartialEq, Debug)]
pub struct PbUserEmailInfo {
    pub identifier: String,
    pub unsubscribe_id: Option<String>,
    pub sent_message_identifiers: Vec<String>,
    pub should_send_newsletters: Option<bool>,
    pub should_send_onboarding_tips: Option<bool>,
}

/// The mathematical value of a [`PbUserEmailInfo`].
#[verifier::ext_equal]
pub ghost struct PbUserEmailInfoView {
    pub identifier: Seq<char>,
    pub unsubscribe_id: Option<Seq<char>>,
    pub sent_message_identifiers: Seq<Seq<char>>,
    pub should_send_newsletters: Option<bool>,
    pub should_send_onboarding_tips: Option<bool>,
}

impl PbUserEmailInfoView {
    /// The message with no field set.
    pub open spec fn blank() -> PbUserEmailInfoView {
        PbUserEmailInfoView {
            identifier: Seq::empty(),
            unsubscribe_id: None,
            sent_message_identifiers: Seq::empty(),
            should_send_newsletters: None,
            should_send_onboarding_tips: None,
        }
    }
}

impl DeepView for PbUserEmailInfo {
    type V = PbUserEmailInfoView;

    open spec fn deep_view(&self) -> PbUserEmailInfoView {
        PbUserEmailInfoView {
            identifier: self.identifier.deep_view(),
            unsubscribe_id: self.unsubscribe_id.deep_view(),
            sent_message_identifiers: self.sent_message_identifiers.deep_view(),
            should_send_newsletters: self.should_send_newsletters.deep_view(),
            should_send_onboarding_tips: self.should_send_onboarding_tips.deep_view(),
        }
    }
}

impl Default for PbUserEmailInfo {
    /// The message with no field set.
    fn default() -> (message: Self)
        ensures
            message.deep_view() == PbUserEmailInfoView::blank(),
    {
        let message = PbUserEmailInfo {
            identifier: String::new(),
            unsubscribe_id: None,
            sent_message_identifiers: Vec::new(),
            should_send_newsletters: None,
            should_send_onboarding_tips: None,
        };
        assert(message.deep_view() =~~= PbUserEmailInfoView::blank());
        message
    }
}

/// The `PbAccountInfoResponse` message: account info response.
#[derive(Clone, PartialEq, Debug)]
pub struct PbAccountInfoResponse {
    pub status_code: Option<i32>,
    pub first_name: Option<String>,
    pub last_name: Option<String>,
    pub email: Option<String>,
    pub is_premium_user: Option<bool>,
    pub subscription_type: Option<i32>,
    pub expiration_timestamp_ms_str: Option<String>,
    pub expiration_timestamp_ms: Option<i64>,
    pub master_user: Option<PbEmailUserIdPair>,
    pub subusers: Vec<PbEmailUserIdPair>,
    pub subscription_management_system: Option<i32>,
}

/// The mathematical value of a [`PbAccountInfoResponse`].
#[verifier::ext_equal]
pub ghost struct PbAccountInfoResponseView {
    pub status_code: Option<i32>,
    pub first_name: Option<Seq<char>>,
    pub last_name: Option<Seq<char>>,
    pub email: Option<Seq<char>>,
    pub is_premium_user: Option<bool>,
    pub subscription_type: Option<i32>,
    pub expiration_timestamp_ms_str: Option<Seq<char>>,
    pub expiration_timestamp_ms: Option<i64>,
    pub master_user: Option<PbEmailUserIdPairView>,
    pub subusers: Seq<PbEmailUserIdPairView>,
    pub subscription_management_system: Option<i32>,
}

impl PbAccountInfoResponseView {
    /// The message with no field set.
    pub open spec fn blank() -> PbAccountInfoResponseView {
        PbAccountInfoResponseView {
            status_code: None,
            first_name: None,
            last_name: None,
            email: None,
            is_premium_user: None,
            subscription_type: None,
            expiration_timestamp_ms_str: None,
            expiration_timestamp_ms: None,
            master_user: None,
            subusers: Seq::empty(),
            subscription_management_system: None,
        }
    }
}

impl DeepView for PbAccountInfoResponse {
    type V = PbAccountInfoResponseView;

    open spec fn deep_view(&self) -> PbAccountInfoResponseView {
        PbAccountInfoResponseView {
            status_code: self.status_code.deep_view(),
            first_name: self.first_name.deep_view(),
            last_name: self.last_name.deep_view(),
            email: self.email.deep_view(),
            is_premium_user: self.is_premium_user.deep_view(),
            subscription_type: self.subscription_type.deep_view(),
            expiration_timestamp_ms_str: self.expiration_timestamp_ms_str.deep_view(),
            expiration_timestamp_ms: self.expiration_timestamp_ms.deep_view(),
            master_user: self.master_user.deep_view(),
            subusers: self.subusers.deep_view(),
            subscription_management_system: self.subscription_management_system.deep_view(),
        }
    }
}

impl Default for PbAccountInfoResponse {
    /// The message with no field set.
    fn default() -> (message: Self)
        ensures
            message.deep_view() == PbAccountInfoResponseView::blank(),
    {
        let message = PbAccountInfoResponse {
            status_code: None,
            first_name: None,
            last_name: None,
            email: None,
            is_premium_user: None,
            subscription_type: None,
            expiration_timestamp_ms_str: None,
            expiration_timestamp_ms: None,
            master_user: None,
            subusers: Vec::new(),
            subscription_management_system: None,
        };
        assert(message.deep_view() =~~= PbAccountInfoResponseView::blank());
        message
    }
}

/// The `PbAccountChangePasswordResponse` message: account change password response.
#[derive(Clone, PartialEq, Debug)]
pub struct PbAccountChangePasswordResponse {
    pub status_code: Option<i32>,
    pub error_title: Option<String>,
    pub error_message: Option<String>,
}

/// The mathematical value of a [`PbAccountChangePasswordResponse`].
#[verifier::ext_equal]
pub ghost struct PbAccountChangePasswordResponseView {
    pub status_code: Option<i32>,
    pub error_title: Option<Seq<char>>,
    pub error_message: Option<Seq<char>>,
}

impl PbAccountChangePasswordResponseView {
    /// The message with no field set.
    pub open spec fn blank() -> PbAccountChangePasswordResponseView {
        PbAccountChangePasswordResponseView {
            status_code: None,
            error_title: None,
            error_message: None,
        }
    }
}

impl DeepView for PbAccountChangePasswordResponse {
    type V = PbAccountChangePasswordResponseView;

    open spec fn deep_view(&self) -> PbAccountChangePasswordResponseView {
        PbAccountChangePasswordResponseView {
            status_code: self.status_code.deep_view(),
            error_title: self.error_title.deep_view(),
            error_message: self.error_message.deep_view(),
        }
    }
}

impl Default for PbAccountChangePasswordResponse {
    /// The message with no field set.
    fn default() -> (message: Self)
        ensures
            message.deep_view() == PbAccountChangePasswordResponseView::blank(),
    {
        PbAccountChangePasswordResponse {
            status_code: None,
            error_title: None,
            error_message: None,
        }
    }
}

/// The `PbRedemptionCodeInfo` message: redemption code info.
#[derive(Clone, PartialEq, Debug)]
pub struct PbRedemptionCodeInfo {
    pub identifier: Option<String>,
    pub redemption_code: Option<String>,
    pub purchasing_user_id: Option<String>,
    pub redeeming_user_id: Option<String>,
    pub redemption_timestamp: Option<Double>,
    pub subscription_type: Option<i32>,
    pub creation_timestamp: Option<Double>,
    pub was_purchased: Option<bool>,
}

/// The mathematical value of a [`PbRedemptionCodeInfo`].
#[verifier::ext_equal]
pub ghost struct PbRedemptionCodeInfoView {
    pub identifier: Option<Seq<char>>,
    pub redemption_code: Option<Seq<char>>,
    pub purchasing_user_id: Option<Seq<char>>,
    pub redeeming_user_id: Option<Seq<char>>,
    pub redemption_timestamp: Option<Double>,
    pub subscription_type: Option<i32>,
    pub creation_timestamp: Option<Double>,
    pub was_purchased: Option<bool>,
}

impl PbRedemptionCodeInfoView {
    /// The message with no field set.
    pub open spec fn blank() -> PbRedemptionCodeInfoView {
        PbRedemptionCodeInfoView {
            identifier: None,
            redemption_code: None,
            purchasing_user_id: None,
            redeeming_user_id: None,
            redemption_timestamp: None,
            subscription_type: None,
            creation_timestamp: None,
            was_purchased: None,
        }
    }
}

impl DeepView for PbRedemptionCodeInfo {
    type V = PbRedemptionCodeInfoView;

    open spec fn deep_view(&self) -> PbRedemptionCodeInfoView {
        PbRedemptionCodeInfoView {
            identifier: self.identifier.deep_view(),
            redemption_code: self.redemption_code.deep_view(),
            purchasing_user_id: self.purchasing_user_id.deep_view(),
            redeeming_user_id: self.redeeming_user_id.deep_view(),
            redemption_timestamp: self.redemption_timestamp.deep_view(),
            subscription_type: self.subscription_type.deep_view(),
            creation_timestamp: self.creation_timestamp.deep_view(),
            was_purchased: self.was_purchased.deep_view(),
        }
    }
}

impl Default for PbRedemptionCodeInfo {
    /// The message with no field set.
    fn default() -> (message: Self)
        ensures
            message.deep_view() == PbRedemptionCodeInfoView::blank(),
    {
        PbRedemptionCodeInfo {
            identifier: None,
            redemption_code: None,
            purchasing_user_id: None,
            redeeming_user_id: None,
            redemption_timestamp: None,
            subscription_type: None,
            creation_timestamp: None,
            was_purchased: None,
        }
    }
}

/// The `PbRedemptionCodeResponse` message: redemption code response.
#[derive(Clone, PartialEq, Debug)]
pub struct PbRedemptionCodeResponse {
    pub status_code: Option<i32>,
    pub account_info: Option<PbAccountInfoResponse>,
    pub error_title: Option<String>,
    pub error_message: Option<String>,
}

/// The mathematical value of a [`PbRedemptionCodeResponse`].
#[verifier::ext_equal]
pub ghost struct PbRedemptionCodeResponseView {
    pub status_code: Option<i32>,
    pub account_info: Option<PbAccountInfoResponseView>,
    pub error_title: Option<Seq<char>>,
    pub error_message: Option<Seq<char>>,
}

impl PbRedemptionCodeResponseView {
    /// The message with no field set.
    pub open spec fn blank() -> PbRedemptionCodeResponseView {
        PbRedemptionCodeResponseView {
            status_code: None,
            account_info: None,
            error_title: None,
            error_message: None,
        }
    }
}

impl DeepView for PbRedemptionCodeResponse {
    type V = PbRedemptionCodeResponseView;

    open spec fn deep_view(&self) -> PbRedemptionCodeResponseView {
        PbRedemptionCodeResponseView {
            status_code: self.status_code.deep_view(),
            account_info: self.account_info.deep_view(),
            error_title: self.error_title.deep_view(),
            error_message: self.error_message.deep_view(),
        }
    }
}

impl Default for PbRedemptionCodeResponse {
    /// The message with no field set.
    fn default() -> (message: Self)
        ensures
            message.deep_view() == PbRedemptionCodeResponseView::blank(),
    {
        PbRedemptionCodeResponse {
            status_code: None,
            account_info: None,
            error_title: None,
            error_message: None,
        }
    }
}

/// The `PbIdentifierList` message: identifier list.
#[derive(Clone, PartialEq, Debug)]
pub struct PbIdentifierList {
    pub timestamp: Option<Double>,
    pub identifiers: Vec<String>,
}

/// The mathematical value of a [`PbIdentifierList`].
#[verifier::ext_equal]
pub ghost struct PbIdentifierListView {
    pub timestamp: Option<Double>,
    pub identifiers: Seq<Seq<char>>,
}

impl PbIdentifierListView {
    /// The message with no field set.
    pub open spec fn blank() -> PbIdentifierListView {
        PbIdentifierListView {
            timestamp: None,
            identifiers: Seq::empty(),
        }
    }
}

impl DeepView for PbIdentifierList {
    type V = PbIdentifierListView;

    open spec fn deep_view(&self) -> PbIdentifierListView {
        PbIdentifierListView {
            timestamp: self.timestamp.deep_view(),
            identifiers: self.identifiers.deep_view(),
        }
    }
}

impl Default for PbIdentifierList {
    /// The message with no field set.
    fn default() -> (message: Self)
        ensures
            message.deep_view() == PbIdentifierListView::blank(),
    {
        let message = PbIdentifierList {
            timestamp: None,
            identifiers: Vec::new(),
        };
        assert(message.deep_view() =~~= PbIdentifierListView::blank());
        message
    }
}

/// The `PbEmailUserIdPair` message: email user id pair.
#[derive(Clone, PartialEq, Debug)]
pub struct PbEmailUserIdPair {
    pub email: Option<String>,
    pub user_id: Option<String>,
    pub full_name: Option<String>,
}

/// The mathematical value of a [`PbEmailUserIdPair`].
#[verifier::ext_equal]
pub ghost struct PbEmailUserIdPairView {
    pub email: Option<Seq<char>>,
    pub user_id: Option<Seq<char>>,
    pub full_name: Option<Seq<char>>,
}

impl PbEmailUserIdPairView {
    /// The message with no field set.
    pub open spec fn blank() -> PbEmailUserIdPairView {
        PbEmailUserIdPairView {
            email: None,
            user_id: None,
            full_name: None,
        }
    }
}

impl DeepView for PbEmailUserIdPair {
    type V = PbEmailUserIdPairView;

    open spec fn deep_view(&self) -> PbEmailUserIdPairView {
        PbEmailUserIdPairView {
            email: self.email.deep_view(),
            user_id: self.user_id.deep_view(),
            full_name: self.full_name.deep_view(),
        }
    }
}

impl Default for PbEmailUserIdPair {
    /// The message with no field set.
    fn default() -> (message: Self)
        ensures
            message.deep_view() == PbEmailUserIdPairView::blank(),
    {
        PbEmailUserIdPair {
            email: None,
            user_id: None,
            full_name: None,
        }
    }
}

/// The `PbNotificationLocation` message: notification location.
#[derive(Clone, PartialEq, Debug)]
pub struct PbNotificationLocation {
    pub identifier: String,
    pub latitude: Option<Double>,
    pub longitude: Option<Double>,
    pub name: Option<String>,
    pub address: Option<String>,
}

/// The mathematical value of a [`PbNotificationLocation`].
#[verifier::ext_equal]
pub ghost struct PbNotificationLocationView {
    pub identifier: Seq<char>,
    pub latitude: Option<Double>,
    pub longitude: Option<Double>,
    pub name: Option<Seq<char>>,
    pub address: Option<Seq<char>>,
}

impl PbNotificationLocationView {
    /// The message with no field set.
    pub open spec fn blank() -> PbNotificationLocationView {
        PbNotificationLocationView {
            identifier: Seq::empty(),
            latitude: None,
            longitude: None,
            name: None,
            address: None,
        }
    }
}

impl DeepView for PbNotificationLocation {
    type V = PbNotificationLocationView;

    open spec fn deep_view(&self) -> PbNotificationLocationView {
        PbNotificationLocationView {
            identifier: self.identifier.deep_view(),
            latitude: self.latitude.deep_view(),
            longitude: self.longitude.deep_view(),
            name: self.name.deep_view(),
            address: self.address.deep_view(),
        }
    }
}

impl Default for PbNotificationLocation {
    /// The message with no field set.
    fn default() -> (message: Self)
        ensures
            message.deep_view() == PbNotificationLocationView::blank(),
    {
        PbNotificationLocation {
            identifier: String::new(),
            latitude: None,
            longitude: None,
            name: None,
            address: None,
        }
    }
}

} // verus!
