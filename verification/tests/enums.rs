//! Every enumeration: each value travels under its wire name and is read back from it.
use stripe_api::customer::common::CustomerTaxExempt;
use stripe_api::customer::create::{
    CreateCustomerCashBalanceSettingsReconciliationMode,
    CreateCustomerInvoiceSettingsRenderingOptionsAmountTaxDisplay,
    CreateCustomerTaxIdDataType,
    CreateCustomerTaxValidateLocation,
};
use stripe_api::customer::funding_instructions::{
    CreateFundingInstructionsCustomerBankTransferRequestedAddressTypes,
    CreateFundingInstructionsCustomerBankTransferType,
    CreateFundingInstructionsCustomerFundingType,
};
use stripe_api::customer::payment_methods::{
    ListPaymentMethodsCustomerAllowRedisplay,
    ListPaymentMethodsCustomerType,
};
use stripe_api::customer::update::{
    UpdateCustomerCashBalanceSettingsReconciliationMode,
    UpdateCustomerInvoiceSettingsRenderingOptionsAmountTaxDisplay,
    UpdateCustomerTaxValidateLocation,
};
use stripe_api::error::StripeParseError;
use std::str::FromStr;

#[test]
fn allow_redisplay_names() {
    assert_eq!(ListPaymentMethodsCustomerAllowRedisplay::Always.as_str(), "always");
    assert_eq!(ListPaymentMethodsCustomerAllowRedisplay::Limited.as_str(), "limited");
    assert_eq!(ListPaymentMethodsCustomerAllowRedisplay::Unspecified.as_str(), "unspecified");
}

#[test]
fn allow_redisplay_round_trip() {
    let all = [
        ListPaymentMethodsCustomerAllowRedisplay::Always,
        ListPaymentMethodsCustomerAllowRedisplay::Limited,
        ListPaymentMethodsCustomerAllowRedisplay::Unspecified,
    ];
    assert_eq!(all.len(), 3);
    for value in all {
        assert_eq!(ListPaymentMethodsCustomerAllowRedisplay::from_str(value.as_str()), Ok(value));
        assert_eq!(value.as_str().parse::<ListPaymentMethodsCustomerAllowRedisplay>(), Ok(value));
    }
}

#[test]
fn allow_redisplay_refuses_other_names() {
    assert_eq!(ListPaymentMethodsCustomerAllowRedisplay::from_str("no_such_value"), Err(StripeParseError));
    assert_eq!(ListPaymentMethodsCustomerAllowRedisplay::from_str(""), Err(StripeParseError));
    assert_eq!(ListPaymentMethodsCustomerAllowRedisplay::from_str("ALWAYS"), Err(StripeParseError));
    assert_eq!(ListPaymentMethodsCustomerAllowRedisplay::from_str("always "), Err(StripeParseError));
    assert_eq!(ListPaymentMethodsCustomerAllowRedisplay::from_str("unknown"), Err(StripeParseError));
    assert!("alwaysx".parse::<ListPaymentMethodsCustomerAllowRedisplay>().is_err());
}

#[test]
fn payment_method_type_names() {
    assert_eq!(ListPaymentMethodsCustomerType::AcssDebit.as_str(), "acss_debit");
    assert_eq!(ListPaymentMethodsCustomerType::Affirm.as_str(), "affirm");
    assert_eq!(ListPaymentMethodsCustomerType::AfterpayClearpay.as_str(), "afterpay_clearpay");
    assert_eq!(ListPaymentMethodsCustomerType::Alipay.as_str(), "alipay");
    assert_eq!(ListPaymentMethodsCustomerType::AmazonPay.as_str(), "amazon_pay");
    assert_eq!(ListPaymentMethodsCustomerType::AuBecsDebit.as_str(), "au_becs_debit");
    assert_eq!(ListPaymentMethodsCustomerType::BacsDebit.as_str(), "bacs_debit");
    assert_eq!(ListPaymentMethodsCustomerType::Bancontact.as_str(), "bancontact");
    assert_eq!(ListPaymentMethodsCustomerType::Blik.as_str(), "blik");
    assert_eq!(ListPaymentMethodsCustomerType::Boleto.as_str(), "boleto");
    assert_eq!(ListPaymentMethodsCustomerType::Card.as_str(), "card");
    assert_eq!(ListPaymentMethodsCustomerType::Cashapp.as_str(), "cashapp");
    assert_eq!(ListPaymentMethodsCustomerType::CustomerBalance.as_str(), "customer_balance");
    assert_eq!(ListPaymentMethodsCustomerType::Eps.as_str(), "eps");
    assert_eq!(ListPaymentMethodsCustomerType::Fpx.as_str(), "fpx");
    assert_eq!(ListPaymentMethodsCustomerType::Giropay.as_str(), "giropay");
    assert_eq!(ListPaymentMethodsCustomerType::Grabpay.as_str(), "grabpay");
    assert_eq!(ListPaymentMethodsCustomerType::Ideal.as_str(), "ideal");
    assert_eq!(ListPaymentMethodsCustomerType::Klarna.as_str(), "klarna");
    assert_eq!(ListPaymentMethodsCustomerType::Konbini.as_str(), "konbini");
    assert_eq!(ListPaymentMethodsCustomerType::Link.as_str(), "link");
    assert_eq!(ListPaymentMethodsCustomerType::Mobilepay.as_str(), "mobilepay");
    assert_eq!(ListPaymentMethodsCustomerType::Oxxo.as_str(), "oxxo");
    assert_eq!(ListPaymentMethodsCustomerType::P24.as_str(), "p24");
    assert_eq!(ListPaymentMethodsCustomerType::Paynow.as_str(), "paynow");
    assert_eq!(ListPaymentMethodsCustomerType::Paypal.as_str(), "paypal");
    assert_eq!(ListPaymentMethodsCustomerType::Pix.as_str(), "pix");
    assert_eq!(ListPaymentMethodsCustomerType::Promptpay.as_str(), "promptpay");
    assert_eq!(ListPaymentMethodsCustomerType::RevolutPay.as_str(), "revolut_pay");
    assert_eq!(ListPaymentMethodsCustomerType::SepaDebit.as_str(), "sepa_debit");
    assert_eq!(ListPaymentMethodsCustomerType::Sofort.as_str(), "sofort");
    assert_eq!(ListPaymentMethodsCustomerType::Swish.as_str(), "swish");
    assert_eq!(ListPaymentMethodsCustomerType::UsBankAccount.as_str(), "us_bank_account");
    assert_eq!(ListPaymentMethodsCustomerType::WechatPay.as_str(), "wechat_pay");
    assert_eq!(ListPaymentMethodsCustomerType::Zip.as_str(), "zip");
    assert_eq!(ListPaymentMethodsCustomerType::Unknown.as_str(), "unknown");
}

#[test]
fn payment_method_type_round_trip() {
    let all = [
        ListPaymentMethodsCustomerType::AcssDebit,
        ListPaymentMethodsCustomerType::Affirm,
        ListPaymentMethodsCustomerType::AfterpayClearpay,
        ListPaymentMethodsCustomerType::Alipay,
        ListPaymentMethodsCustomerType::AmazonPay,
        ListPaymentMethodsCustomerType::AuBecsDebit,
        ListPaymentMethodsCustomerType::BacsDebit,
        ListPaymentMethodsCustomerType::Bancontact,
        ListPaymentMethodsCustomerType::Blik,
        ListPaymentMethodsCustomerType::Boleto,
        ListPaymentMethodsCustomerType::Card,
        ListPaymentMethodsCustomerType::Cashapp,
        ListPaymentMethodsCustomerType::CustomerBalance,
        ListPaymentMethodsCustomerType::Eps,
        ListPaymentMethodsCustomerType::Fpx,
        ListPaymentMethodsCustomerType::Giropay,
        ListPaymentMethodsCustomerType::Grabpay,
        ListPaymentMethodsCustomerType::Ideal,
        ListPaymentMethodsCustomerType::Klarna,
        ListPaymentMethodsCustomerType::Konbini,
        ListPaymentMethodsCustomerType::Link,
        ListPaymentMethodsCustomerType::Mobilepay,
        ListPaymentMethodsCustomerType::Oxxo,
        ListPaymentMethodsCustomerType::P24,
        ListPaymentMethodsCustomerType::Paynow,
        ListPaymentMethodsCustomerType::Paypal,
        ListPaymentMethodsCustomerType::Pix,
        ListPaymentMethodsCustomerType::Promptpay,
        ListPaymentMethodsCustomerType::RevolutPay,
        ListPaymentMethodsCustomerType::SepaDebit,
        ListPaymentMethodsCustomerType::Sofort,
        ListPaymentMethodsCustomerType::Swish,
        ListPaymentMethodsCustomerType::UsBankAccount,
        ListPaymentMethodsCustomerType::WechatPay,
        ListPaymentMethodsCustomerType::Zip,
        ListPaymentMethodsCustomerType::Unknown,
    ];
    assert_eq!(all.len(), 36);
    for value in all {
        assert_eq!(ListPaymentMethodsCustomerType::from_str(value.as_str()), Ok(value));
        assert_eq!(value.as_str().parse::<ListPaymentMethodsCustomerType>(), Ok(value));
    }
}

#[test]
fn payment_method_type_reads_unrecognized_names_as_unknown() {
    assert_eq!(ListPaymentMethodsCustomerType::from_str("no_such_value"), Ok(ListPaymentMethodsCustomerType::Unknown));
    assert_eq!(ListPaymentMethodsCustomerType::from_str(""), Ok(ListPaymentMethodsCustomerType::Unknown));
    assert_eq!(ListPaymentMethodsCustomerType::from_str("ACSS_DEBIT"), Ok(ListPaymentMethodsCustomerType::Unknown));
    assert_eq!(ListPaymentMethodsCustomerType::from_str("acss_debit "), Ok(ListPaymentMethodsCustomerType::Unknown));
    assert_eq!(ListPaymentMethodsCustomerType::from_str("unknown"), Ok(ListPaymentMethodsCustomerType::Unknown));
}

#[test]
fn create_reconciliation_mode_names() {
    assert_eq!(CreateCustomerCashBalanceSettingsReconciliationMode::Automatic.as_str(), "automatic");
    assert_eq!(CreateCustomerCashBalanceSettingsReconciliationMode::Manual.as_str(), "manual");
    assert_eq!(CreateCustomerCashBalanceSettingsReconciliationMode::MerchantDefault.as_str(), "merchant_default");
}

#[test]
fn create_reconciliation_mode_round_trip() {
    let all = [
        CreateCustomerCashBalanceSettingsReconciliationMode::Automatic,
        CreateCustomerCashBalanceSettingsReconciliationMode::Manual,
        CreateCustomerCashBalanceSettingsReconciliationMode::MerchantDefault,
    ];
    assert_eq!(all.len(), 3);
    for value in all {
        assert_eq!(CreateCustomerCashBalanceSettingsReconciliationMode::from_str(value.as_str()), Ok(value));
        assert_eq!(value.as_str().parse::<CreateCustomerCashBalanceSettingsReconciliationMode>(), Ok(value));
    }
}

#[test]
fn create_reconciliation_mode_refuses_other_names() {
    assert_eq!(CreateCustomerCashBalanceSettingsReconciliationMode::from_str("no_such_value"), Err(StripeParseError));
    assert_eq!(CreateCustomerCashBalanceSettingsReconciliationMode::from_str(""), Err(StripeParseError));
    assert_eq!(CreateCustomerCashBalanceSettingsReconciliationMode::from_str("AUTOMATIC"), Err(StripeParseError));
    assert_eq!(CreateCustomerCashBalanceSettingsReconciliationMode::from_str("automatic "), Err(StripeParseError));
    assert_eq!(CreateCustomerCashBalanceSettingsReconciliationMode::from_str("unknown"), Err(StripeParseError));
    assert!("automaticx".parse::<CreateCustomerCashBalanceSettingsReconciliationMode>().is_err());
}

#[test]
fn create_amount_tax_display_names() {
    assert_eq!(CreateCustomerInvoiceSettingsRenderingOptionsAmountTaxDisplay::ExcludeTax.as_str(), "exclude_tax");
    assert_eq!(CreateCustomerInvoiceSettingsRenderingOptionsAmountTaxDisplay::IncludeInclusiveTax.as_str(), "include_inclusive_tax");
}

#[test]
fn create_amount_tax_display_round_trip() {
    let all = [
        CreateCustomerInvoiceSettingsRenderingOptionsAmountTaxDisplay::ExcludeTax,
        CreateCustomerInvoiceSettingsRenderingOptionsAmountTaxDisplay::IncludeInclusiveTax,
    ];
    assert_eq!(all.len(), 2);
    for value in all {
        assert_eq!(CreateCustomerInvoiceSettingsRenderingOptionsAmountTaxDisplay::from_str(value.as_str()), Ok(value));
        assert_eq!(value.as_str().parse::<CreateCustomerInvoiceSettingsRenderingOptionsAmountTaxDisplay>(), Ok(value));
    }
}

#[test]
fn create_amount_tax_display_refuses_other_names() {
    assert_eq!(CreateCustomerInvoiceSettingsRenderingOptionsAmountTaxDisplay::from_str("no_such_value"), Err(StripeParseError));
    assert_eq!(CreateCustomerInvoiceSettingsRenderingOptionsAmountTaxDisplay::from_str(""), Err(StripeParseError));
    assert_eq!(CreateCustomerInvoiceSettingsRenderingOptionsAmountTaxDisplay::from_str("EXCLUDE_TAX"), Err(StripeParseError));
    assert_eq!(CreateCustomerInvoiceSettingsRenderingOptionsAmountTaxDisplay::from_str("exclude_tax "), Err(StripeParseError));
    assert_eq!(CreateCustomerInvoiceSettingsRenderingOptionsAmountTaxDisplay::from_str("unknown"), Err(StripeParseError));
    assert!("exclude_taxx".parse::<CreateCustomerInvoiceSettingsRenderingOptionsAmountTaxDisplay>().is_err());
}

#[test]
fn create_validate_location_names() {
    assert_eq!(CreateCustomerTaxValidateLocation::Deferred.as_str(), "deferred");
    assert_eq!(CreateCustomerTaxValidateLocation::Immediately.as_str(), "immediately");
}

#[test]
fn create_validate_location_round_trip() {
    let all = [
        CreateCustomerTaxValidateLocation::Deferred,
        CreateCustomerTaxValidateLocation::Immediately,
    ];
    assert_eq!(all.len(), 2);
    for value in all {
        assert_eq!(CreateCustomerTaxValidateLocation::from_str(value.as_str()), Ok(value));
        assert_eq!(value.as_str().parse::<CreateCustomerTaxValidateLocation>(), Ok(value));
    }
}

#[test]
fn create_validate_location_refuses_other_names() {
    assert_eq!(CreateCustomerTaxValidateLocation::from_str("no_such_value"), Err(StripeParseError));
    assert_eq!(CreateCustomerTaxValidateLocation::from_str(""), Err(StripeParseError));
    assert_eq!(CreateCustomerTaxValidateLocation::from_str("DEFERRED"), Err(StripeParseError));
    assert_eq!(CreateCustomerTaxValidateLocation::from_str("deferred "), Err(StripeParseError));
    assert_eq!(CreateCustomerTaxValidateLocation::from_str("unknown"), Err(StripeParseError));
    assert!("deferredx".parse::<CreateCustomerTaxValidateLocation>().is_err());
}

#[test]
fn tax_id_type_names() {
    assert_eq!(CreateCustomerTaxIdDataType::AdNrt.as_str(), "ad_nrt");
    assert_eq!(CreateCustomerTaxIdDataType::AeTrn.as_str(), "ae_trn");
    assert_eq!(CreateCustomerTaxIdDataType::ArCuit.as_str(), "ar_cuit");
    assert_eq!(CreateCustomerTaxIdDataType::AuAbn.as_str(), "au_abn");
    assert_eq!(CreateCustomerTaxIdDataType::AuArn.as_str(), "au_arn");
    assert_eq!(CreateCustomerTaxIdDataType::BgUic.as_str(), "bg_uic");
    assert_eq!(CreateCustomerTaxIdDataType::BhVat.as_str(), "bh_vat");
    assert_eq!(CreateCustomerTaxIdDataType::BoTin.as_str(), "bo_tin");
    assert_eq!(CreateCustomerTaxIdDataType::BrCnpj.as_str(), "br_cnpj");
    assert_eq!(CreateCustomerTaxIdDataType::BrCpf.as_str(), "br_cpf");
    assert_eq!(CreateCustomerTaxIdDataType::CaBn.as_str(), "ca_bn");
    assert_eq!(CreateCustomerTaxIdDataType::CaGstHst.as_str(), "ca_gst_hst");
    assert_eq!(CreateCustomerTaxIdDataType::CaPstBc.as_str(), "ca_pst_bc");
    assert_eq!(CreateCustomerTaxIdDataType::CaPstMb.as_str(), "ca_pst_mb");
    assert_eq!(CreateCustomerTaxIdDataType::CaPstSk.as_str(), "ca_pst_sk");
    assert_eq!(CreateCustomerTaxIdDataType::CaQst.as_str(), "ca_qst");
    assert_eq!(CreateCustomerTaxIdDataType::ChVat.as_str(), "ch_vat");
    assert_eq!(CreateCustomerTaxIdDataType::ClTin.as_str(), "cl_tin");
    assert_eq!(CreateCustomerTaxIdDataType::CnTin.as_str(), "cn_tin");
    assert_eq!(CreateCustomerTaxIdDataType::CoNit.as_str(), "co_nit");
    assert_eq!(CreateCustomerTaxIdDataType::CrTin.as_str(), "cr_tin");
    assert_eq!(CreateCustomerTaxIdDataType::DoRcn.as_str(), "do_rcn");
    assert_eq!(CreateCustomerTaxIdDataType::EcRuc.as_str(), "ec_ruc");
    assert_eq!(CreateCustomerTaxIdDataType::EgTin.as_str(), "eg_tin");
    assert_eq!(CreateCustomerTaxIdDataType::EsCif.as_str(), "es_cif");
    assert_eq!(CreateCustomerTaxIdDataType::EuOssVat.as_str(), "eu_oss_vat");
    assert_eq!(CreateCustomerTaxIdDataType::EuVat.as_str(), "eu_vat");
    assert_eq!(CreateCustomerTaxIdDataType::GbVat.as_str(), "gb_vat");
    assert_eq!(CreateCustomerTaxIdDataType::GeVat.as_str(), "ge_vat");
    assert_eq!(CreateCustomerTaxIdDataType::HkBr.as_str(), "hk_br");
    assert_eq!(CreateCustomerTaxIdDataType::HuTin.as_str(), "hu_tin");
    assert_eq!(CreateCustomerTaxIdDataType::IdNpwp.as_str(), "id_npwp");
    assert_eq!(CreateCustomerTaxIdDataType::IlVat.as_str(), "il_vat");
    assert_eq!(CreateCustomerTaxIdDataType::InGst.as_str(), "in_gst");
    assert_eq!(CreateCustomerTaxIdDataType::IsVat.as_str(), "is_vat");
    assert_eq!(CreateCustomerTaxIdDataType::JpCn.as_str(), "jp_cn");
    assert_eq!(CreateCustomerTaxIdDataType::JpRn.as_str(), "jp_rn");
    assert_eq!(CreateCustomerTaxIdDataType::JpTrn.as_str(), "jp_trn");
    assert_eq!(CreateCustomerTaxIdDataType::KePin.as_str(), "ke_pin");
    assert_eq!(CreateCustomerTaxIdDataType::KrBrn.as_str(), "kr_brn");
    assert_eq!(CreateCustomerTaxIdDataType::KzBin.as_str(), "kz_bin");
    assert_eq!(CreateCustomerTaxIdDataType::LiUid.as_str(), "li_uid");
    assert_eq!(CreateCustomerTaxIdDataType::MxRfc.as_str(), "mx_rfc");
    assert_eq!(CreateCustomerTaxIdDataType::MyFrp.as_str(), "my_frp");
    assert_eq!(CreateCustomerTaxIdDataType::MyItn.as_str(), "my_itn");
    assert_eq!(CreateCustomerTaxIdDataType::MySst.as_str(), "my_sst");
    assert_eq!(CreateCustomerTaxIdDataType::NgTin.as_str(), "ng_tin");
    assert_eq!(CreateCustomerTaxIdDataType::NoVat.as_str(), "no_vat");
    assert_eq!(CreateCustomerTaxIdDataType::NoVoec.as_str(), "no_voec");
    assert_eq!(CreateCustomerTaxIdDataType::NzGst.as_str(), "nz_gst");
    assert_eq!(CreateCustomerTaxIdDataType::OmVat.as_str(), "om_vat");
    assert_eq!(CreateCustomerTaxIdDataType::PeRuc.as_str(), "pe_ruc");
    assert_eq!(CreateCustomerTaxIdDataType::PhTin.as_str(), "ph_tin");
    assert_eq!(CreateCustomerTaxIdDataType::RoTin.as_str(), "ro_tin");
    assert_eq!(CreateCustomerTaxIdDataType::RsPib.as_str(), "rs_pib");
    assert_eq!(CreateCustomerTaxIdDataType::RuInn.as_str(), "ru_inn");
    assert_eq!(CreateCustomerTaxIdDataType::RuKpp.as_str(), "ru_kpp");
    assert_eq!(CreateCustomerTaxIdDataType::SaVat.as_str(), "sa_vat");
    assert_eq!(CreateCustomerTaxIdDataType::SgGst.as_str(), "sg_gst");
    assert_eq!(CreateCustomerTaxIdDataType::SgUen.as_str(), "sg_uen");
    assert_eq!(CreateCustomerTaxIdDataType::SiTin.as_str(), "si_tin");
    assert_eq!(CreateCustomerTaxIdDataType::SvNit.as_str(), "sv_nit");
    assert_eq!(CreateCustomerTaxIdDataType::ThVat.as_str(), "th_vat");
    assert_eq!(CreateCustomerTaxIdDataType::TrTin.as_str(), "tr_tin");
    assert_eq!(CreateCustomerTaxIdDataType::TwVat.as_str(), "tw_vat");
    assert_eq!(CreateCustomerTaxIdDataType::UaVat.as_str(), "ua_vat");
    assert_eq!(CreateCustomerTaxIdDataType::UsEin.as_str(), "us_ein");
    assert_eq!(CreateCustomerTaxIdDataType::UyRuc.as_str(), "uy_ruc");
    assert_eq!(CreateCustomerTaxIdDataType::VeRif.as_str(), "ve_rif");
    assert_eq!(CreateCustomerTaxIdDataType::VnTin.as_str(), "vn_tin");
    assert_eq!(CreateCustomerTaxIdDataType::ZaVat.as_str(), "za_vat");
    assert_eq!(CreateCustomerTaxIdDataType::Unknown.as_str(), "unknown");
}

#[test]
fn tax_id_type_round_trip() {
    let all = [
        CreateCustomerTaxIdDataType::AdNrt,
        CreateCustomerTaxIdDataType::AeTrn,
        CreateCustomerTaxIdDataType::ArCuit,
        CreateCustomerTaxIdDataType::AuAbn,
        CreateCustomerTaxIdDataType::AuArn,
        CreateCustomerTaxIdDataType::BgUic,
        CreateCustomerTaxIdDataType::BhVat,
        CreateCustomerTaxIdDataType::BoTin,
        CreateCustomerTaxIdDataType::BrCnpj,
        CreateCustomerTaxIdDataType::BrCpf,
        CreateCustomerTaxIdDataType::CaBn,
        CreateCustomerTaxIdDataType::CaGstHst,
        CreateCustomerTaxIdDataType::CaPstBc,
        CreateCustomerTaxIdDataType::CaPstMb,
        CreateCustomerTaxIdDataType::CaPstSk,
        CreateCustomerTaxIdDataType::CaQst,
        CreateCustomerTaxIdDataType::ChVat,
        CreateCustomerTaxIdDataType::ClTin,
        CreateCustomerTaxIdDataType::CnTin,
        CreateCustomerTaxIdDataType::CoNit,
        CreateCustomerTaxIdDataType::CrTin,
        CreateCustomerTaxIdDataType::DoRcn,
        CreateCustomerTaxIdDataType::EcRuc,
        CreateCustomerTaxIdDataType::EgTin,
        CreateCustomerTaxIdDataType::EsCif,
        CreateCustomerTaxIdDataType::EuOssVat,
        CreateCustomerTaxIdDataType::EuVat,
        CreateCustomerTaxIdDataType::GbVat,
        CreateCustomerTaxIdDataType::GeVat,
        CreateCustomerTaxIdDataType::HkBr,
        CreateCustomerTaxIdDataType::HuTin,
        CreateCustomerTaxIdDataType::IdNpwp,
        CreateCustomerTaxIdDataType::IlVat,
        CreateCustomerTaxIdDataType::InGst,
        CreateCustomerTaxIdDataType::IsVat,
        CreateCustomerTaxIdDataType::JpCn,
        CreateCustomerTaxIdDataType::JpRn,
        CreateCustomerTaxIdDataType::JpTrn,
        CreateCustomerTaxIdDataType::KePin,
        CreateCustomerTaxIdDataType::KrBrn,
        CreateCustomerTaxIdDataType::KzBin,
        CreateCustomerTaxIdDataType::LiUid,
        CreateCustomerTaxIdDataType::MxRfc,
        CreateCustomerTaxIdDataType::MyFrp,
        CreateCustomerTaxIdDataType::MyItn,
        CreateCustomerTaxIdDataType::MySst,
        CreateCustomerTaxIdDataType::NgTin,
        CreateCustomerTaxIdDataType::NoVat,
        CreateCustomerTaxIdDataType::NoVoec,
        CreateCustomerTaxIdDataType::NzGst,
        CreateCustomerTaxIdDataType::OmVat,
        CreateCustomerTaxIdDataType::PeRuc,
        CreateCustomerTaxIdDataType::PhTin,
        CreateCustomerTaxIdDataType::RoTin,
        CreateCustomerTaxIdDataType::RsPib,
        CreateCustomerTaxIdDataType::RuInn,
        CreateCustomerTaxIdDataType::RuKpp,
        CreateCustomerTaxIdDataType::SaVat,
        CreateCustomerTaxIdDataType::SgGst,
        CreateCustomerTaxIdDataType::SgUen,
        CreateCustomerTaxIdDataType::SiTin,
        CreateCustomerTaxIdDataType::SvNit,
        CreateCustomerTaxIdDataType::ThVat,
        CreateCustomerTaxIdDataType::TrTin,
        CreateCustomerTaxIdDataType::TwVat,
        CreateCustomerTaxIdDataType::UaVat,
        CreateCustomerTaxIdDataType::UsEin,
        CreateCustomerTaxIdDataType::UyRuc,
        CreateCustomerTaxIdDataType::VeRif,
        CreateCustomerTaxIdDataType::VnTin,
        CreateCustomerTaxIdDataType::ZaVat,
        CreateCustomerTaxIdDataType::Unknown,
    ];
    assert_eq!(all.len(), 72);
    for value in all {
        assert_eq!(CreateCustomerTaxIdDataType::from_str(value.as_str()), Ok(value));
        assert_eq!(value.as_str().parse::<CreateCustomerTaxIdDataType>(), Ok(value));
    }
}

#[test]
fn tax_id_type_reads_unrecognized_names_as_unknown() {
    assert_eq!(CreateCustomerTaxIdDataType::from_str("no_such_value"), Ok(CreateCustomerTaxIdDataType::Unknown));
    assert_eq!(CreateCustomerTaxIdDataType::from_str(""), Ok(CreateCustomerTaxIdDataType::Unknown));
    assert_eq!(CreateCustomerTaxIdDataType::from_str("AD_NRT"), Ok(CreateCustomerTaxIdDataType::Unknown));
    assert_eq!(CreateCustomerTaxIdDataType::from_str("ad_nrt "), Ok(CreateCustomerTaxIdDataType::Unknown));
    assert_eq!(CreateCustomerTaxIdDataType::from_str("unknown"), Ok(CreateCustomerTaxIdDataType::Unknown));
}

#[test]
fn update_reconciliation_mode_names() {
    assert_eq!(UpdateCustomerCashBalanceSettingsReconciliationMode::Automatic.as_str(), "automatic");
    assert_eq!(UpdateCustomerCashBalanceSettingsReconciliationMode::Manual.as_str(), "manual");
    assert_eq!(UpdateCustomerCashBalanceSettingsReconciliationMode::MerchantDefault.as_str(), "merchant_default");
}

#[test]
fn update_reconciliation_mode_round_trip() {
    let all = [
        UpdateCustomerCashBalanceSettingsReconciliationMode::Automatic,
        UpdateCustomerCashBalanceSettingsReconciliationMode::Manual,
        UpdateCustomerCashBalanceSettingsReconciliationMode::MerchantDefault,
    ];
    assert_eq!(all.len(), 3);
    for value in all {
        assert_eq!(UpdateCustomerCashBalanceSettingsReconciliationMode::from_str(value.as_str()), Ok(value));
        assert_eq!(value.as_str().parse::<UpdateCustomerCashBalanceSettingsReconciliationMode>(), Ok(value));
    }
}

#[test]
fn update_reconciliation_mode_refuses_other_names() {
    assert_eq!(UpdateCustomerCashBalanceSettingsReconciliationMode::from_str("no_such_value"), Err(StripeParseError));
    assert_eq!(UpdateCustomerCashBalanceSettingsReconciliationMode::from_str(""), Err(StripeParseError));
    assert_eq!(UpdateCustomerCashBalanceSettingsReconciliationMode::from_str("AUTOMATIC"), Err(StripeParseError));
    assert_eq!(UpdateCustomerCashBalanceSettingsReconciliationMode::from_str("automatic "), Err(StripeParseError));
    assert_eq!(UpdateCustomerCashBalanceSettingsReconciliationMode::from_str("unknown"), Err(StripeParseError));
    assert!("automaticx".parse::<UpdateCustomerCashBalanceSettingsReconciliationMode>().is_err());
}

#[test]
fn update_amount_tax_display_names() {
    assert_eq!(UpdateCustomerInvoiceSettingsRenderingOptionsAmountTaxDisplay::ExcludeTax.as_str(), "exclude_tax");
    assert_eq!(UpdateCustomerInvoiceSettingsRenderingOptionsAmountTaxDisplay::IncludeInclusiveTax.as_str(), "include_inclusive_tax");
}

#[test]
fn update_amount_tax_display_round_trip() {
    let all = [
        UpdateCustomerInvoiceSettingsRenderingOptionsAmountTaxDisplay::ExcludeTax,
        UpdateCustomerInvoiceSettingsRenderingOptionsAmountTaxDisplay::IncludeInclusiveTax,
    ];
    assert_eq!(all.len(), 2);
    for value in all {
        assert_eq!(UpdateCustomerInvoiceSettingsRenderingOptionsAmountTaxDisplay::from_str(value.as_str()), Ok(value));
        assert_eq!(value.as_str().parse::<UpdateCustomerInvoiceSettingsRenderingOptionsAmountTaxDisplay>(), Ok(value));
    }
}

#[test]
fn update_amount_tax_display_refuses_other_names() {
    assert_eq!(UpdateCustomerInvoiceSettingsRenderingOptionsAmountTaxDisplay::from_str("no_such_value"), Err(StripeParseError));
    assert_eq!(UpdateCustomerInvoiceSettingsRenderingOptionsAmountTaxDisplay::from_str(""), Err(StripeParseError));
    assert_eq!(UpdateCustomerInvoiceSettingsRenderingOptionsAmountTaxDisplay::from_str("EXCLUDE_TAX"), Err(StripeParseError));
    assert_eq!(UpdateCustomerInvoiceSettingsRenderingOptionsAmountTaxDisplay::from_str("exclude_tax "), Err(StripeParseError));
    assert_eq!(UpdateCustomerInvoiceSettingsRenderingOptionsAmountTaxDisplay::from_str("unknown"), Err(StripeParseError));
    assert!("exclude_taxx".parse::<UpdateCustomerInvoiceSettingsRenderingOptionsAmountTaxDisplay>().is_err());
}

#[test]
fn update_validate_location_names() {
    assert_eq!(UpdateCustomerTaxValidateLocation::Deferred.as_str(), "deferred");
    assert_eq!(UpdateCustomerTaxValidateLocation::Immediately.as_str(), "immediately");
}

#[test]
fn update_validate_location_round_trip() {
    let all = [
        UpdateCustomerTaxValidateLocation::Deferred,
        UpdateCustomerTaxValidateLocation::Immediately,
    ];
    assert_eq!(all.len(), 2);
    for value in all {
        assert_eq!(UpdateCustomerTaxValidateLocation::from_str(value.as_str()), Ok(value));
        assert_eq!(value.as_str().parse::<UpdateCustomerTaxValidateLocation>(), Ok(value));
    }
}

#[test]
fn update_validate_location_refuses_other_names() {
    assert_eq!(UpdateCustomerTaxValidateLocation::from_str("no_such_value"), Err(StripeParseError));
    assert_eq!(UpdateCustomerTaxValidateLocation::from_str(""), Err(StripeParseError));
    assert_eq!(UpdateCustomerTaxValidateLocation::from_str("DEFERRED"), Err(StripeParseError));
    assert_eq!(UpdateCustomerTaxValidateLocation::from_str("deferred "), Err(StripeParseError));
    assert_eq!(UpdateCustomerTaxValidateLocation::from_str("unknown"), Err(StripeParseError));
    assert!("deferredx".parse::<UpdateCustomerTaxValidateLocation>().is_err());
}

#[test]
fn requested_address_types_names() {
    assert_eq!(CreateFundingInstructionsCustomerBankTransferRequestedAddressTypes::Iban.as_str(), "iban");
    assert_eq!(CreateFundingInstructionsCustomerBankTransferRequestedAddressTypes::SortCode.as_str(), "sort_code");
    assert_eq!(CreateFundingInstructionsCustomerBankTransferRequestedAddressTypes::Spei.as_str(), "spei");
    assert_eq!(CreateFundingInstructionsCustomerBankTransferRequestedAddressTypes::Zengin.as_str(), "zengin");
}

#[test]
fn requested_address_types_round_trip() {
    let all = [
        CreateFundingInstructionsCustomerBankTransferRequestedAddressTypes::Iban,
        CreateFundingInstructionsCustomerBankTransferRequestedAddressTypes::SortCode,
        CreateFundingInstructionsCustomerBankTransferRequestedAddressTypes::Spei,
        CreateFundingInstructionsCustomerBankTransferRequestedAddressTypes::Zengin,
    ];
    assert_eq!(all.len(), 4);
    for value in all {
        assert_eq!(CreateFundingInstructionsCustomerBankTransferRequestedAddressTypes::from_str(value.as_str()), Ok(value));
        assert_eq!(value.as_str().parse::<CreateFundingInstructionsCustomerBankTransferRequestedAddressTypes>(), Ok(value));
    }
}

#[test]
fn requested_address_types_refuses_other_names() {
    assert_eq!(CreateFundingInstructionsCustomerBankTransferRequestedAddressTypes::from_str("no_such_value"), Err(StripeParseError));
    assert_eq!(CreateFundingInstructionsCustomerBankTransferRequestedAddressTypes::from_str(""), Err(StripeParseError));
    assert_eq!(CreateFundingInstructionsCustomerBankTransferRequestedAddressTypes::from_str("IBAN"), Err(StripeParseError));
    assert_eq!(CreateFundingInstructionsCustomerBankTransferRequestedAddressTypes::from_str("iban "), Err(StripeParseError));
    assert_eq!(CreateFundingInstructionsCustomerBankTransferRequestedAddressTypes::from_str("unknown"), Err(StripeParseError));
    assert!("ibanx".parse::<CreateFundingInstructionsCustomerBankTransferRequestedAddressTypes>().is_err());
}

#[test]
fn bank_transfer_type_names() {
    assert_eq!(CreateFundingInstructionsCustomerBankTransferType::EuBankTransfer.as_str(), "eu_bank_transfer");
    assert_eq!(CreateFundingInstructionsCustomerBankTransferType::GbBankTransfer.as_str(), "gb_bank_transfer");
    assert_eq!(CreateFundingInstructionsCustomerBankTransferType::JpBankTransfer.as_str(), "jp_bank_transfer");
    assert_eq!(CreateFundingInstructionsCustomerBankTransferType::MxBankTransfer.as_str(), "mx_bank_transfer");
    assert_eq!(CreateFundingInstructionsCustomerBankTransferType::UsBankTransfer.as_str(), "us_bank_transfer");
}

#[test]
fn bank_transfer_type_round_trip() {
    let all = [
        CreateFundingInstructionsCustomerBankTransferType::EuBankTransfer,
        CreateFundingInstructionsCustomerBankTransferType::GbBankTransfer,
        CreateFundingInstructionsCustomerBankTransferType::JpBankTransfer,
        CreateFundingInstructionsCustomerBankTransferType::MxBankTransfer,
        CreateFundingInstructionsCustomerBankTransferType::UsBankTransfer,
    ];
    assert_eq!(all.len(), 5);
    for value in all {
        assert_eq!(CreateFundingInstructionsCustomerBankTransferType::from_str(value.as_str()), Ok(value));
        assert_eq!(value.as_str().parse::<CreateFundingInstructionsCustomerBankTransferType>(), Ok(value));
    }
}

#[test]
fn bank_transfer_type_refuses_other_names() {
    assert_eq!(CreateFundingInstructionsCustomerBankTransferType::from_str("no_such_value"), Err(StripeParseError));
    assert_eq!(CreateFundingInstructionsCustomerBankTransferType::from_str(""), Err(StripeParseError));
    assert_eq!(CreateFundingInstructionsCustomerBankTransferType::from_str("EU_BANK_TRANSFER"), Err(StripeParseError));
    assert_eq!(CreateFundingInstructionsCustomerBankTransferType::from_str("eu_bank_transfer "), Err(StripeParseError));
    assert_eq!(CreateFundingInstructionsCustomerBankTransferType::from_str("unknown"), Err(StripeParseError));
    assert!("eu_bank_transferx".parse::<CreateFundingInstructionsCustomerBankTransferType>().is_err());
}

#[test]
fn funding_type_names() {
    assert_eq!(CreateFundingInstructionsCustomerFundingType::BankTransfer.as_str(), "bank_transfer");
}

#[test]
fn funding_type_round_trip() {
    let all = [
        CreateFundingInstructionsCustomerFundingType::BankTransfer,
    ];
    assert_eq!(all.len(), 1);
    for value in all {
        assert_eq!(CreateFundingInstructionsCustomerFundingType::from_str(value.as_str()), Ok(value));
        assert_eq!(value.as_str().parse::<CreateFundingInstructionsCustomerFundingType>(), Ok(value));
    }
}

#[test]
fn funding_type_refuses_other_names() {
    assert_eq!(CreateFundingInstructionsCustomerFundingType::from_str("no_such_value"), Err(StripeParseError));
    assert_eq!(CreateFundingInstructionsCustomerFundingType::from_str(""), Err(StripeParseError));
    assert_eq!(CreateFundingInstructionsCustomerFundingType::from_str("BANK_TRANSFER"), Err(StripeParseError));
    assert_eq!(CreateFundingInstructionsCustomerFundingType::from_str("bank_transfer "), Err(StripeParseError));
    assert_eq!(CreateFundingInstructionsCustomerFundingType::from_str("unknown"), Err(StripeParseError));
    assert!("bank_transferx".parse::<CreateFundingInstructionsCustomerFundingType>().is_err());
}

#[test]
fn tax_exempt_names() {
    assert_eq!(CustomerTaxExempt::Exempt.as_str(), "exempt");
    assert_eq!(CustomerTaxExempt::NotExempt.as_str(), "none");
    assert_eq!(CustomerTaxExempt::Reverse.as_str(), "reverse");
}

#[test]
fn tax_exempt_round_trip() {
    let all = [
        CustomerTaxExempt::Exempt,
        CustomerTaxExempt::NotExempt,
        CustomerTaxExempt::Reverse,
    ];
    assert_eq!(all.len(), 3);
    for value in all {
        assert_eq!(CustomerTaxExempt::from_str(value.as_str()), Ok(value));
        assert_eq!(value.as_str().parse::<CustomerTaxExempt>(), Ok(value));
    }
}

#[test]
fn tax_exempt_refuses_other_names() {
    assert_eq!(CustomerTaxExempt::from_str("no_such_value"), Err(StripeParseError));
    assert_eq!(CustomerTaxExempt::from_str(""), Err(StripeParseError));
    assert_eq!(CustomerTaxExempt::from_str("EXEMPT"), Err(StripeParseError));
    assert_eq!(CustomerTaxExempt::from_str("exempt "), Err(StripeParseError));
    assert_eq!(CustomerTaxExempt::from_str("unknown"), Err(StripeParseError));
    assert!("exemptx".parse::<CustomerTaxExempt>().is_err());
}
