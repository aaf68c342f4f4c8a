//! Signed URLs of the MoonPay on-ramp widget.
use vstd::prelude::*;

use crate::model::SwapInfo;

verus! {

/// Settings of the MoonPay on-ramp widget.
pub struct MoonPayConfig {
    pub base_url: String,
    pub api_key: String,
    pub currency_code: String,
    pub color_code: String,
    pub redirect_url: String,
    pub enabled_payment_methods: String,
}

pub const MOONPAY_BASE_URL: &'static str = "https://buy.moonpay.io";

pub const MOONPAY_CURRENCY_CODE: &'static str = "btc";

pub const MOONPAY_COLOR_CODE: &'static str = "#055DEB";

pub const MOONPAY_REDIRECT_URL: &'static str = "https://buy.moonpay.io/transaction_receipt?addFunds=true";

pub const MOONPAY_PAYMENT_METHODS: &'static str = "credit_debit_card,sepa_bank_transfer,gbp_bank_transfer";

/// The widget settings for an API key.
pub fn moonpay_config(moonpay_api_key: &str) -> (r: MoonPayConfig)
    ensures
        r.base_url@ == MOONPAY_BASE_URL@,
        r.api_key@ == moonpay_api_key@,
        r.currency_code@ == MOONPAY_CURRENCY_CODE@,
        r.color_code@ == MOONPAY_COLOR_CODE@,
        r.redirect_url@ == MOONPAY_REDIRECT_URL@,
        r.enabled_payment_methods@ == MOONPAY_PAYMENT_METHODS@,
{
    MoonPayConfig {
        base_url: String::from_str(MOONPAY_BASE_URL),
        api_key: String::from_str(moonpay_api_key),
        currency_code: String::from_str(MOONPAY_CURRENCY_CODE),
        color_code: String::from_str(MOONPAY_COLOR_CODE),
        redirect_url: String::from_str(MOONPAY_REDIRECT_URL),
        enabled_payment_methods: String::from_str(MOONPAY_PAYMENT_METHODS),
    }
}

/// Signs MoonPay widget URLs; implemented by the wallet's signing service.
pub trait MoonPayUrlSigner {
    fn sign_moon_pay_url(
        &mut self,
        moon_pay_config: &MoonPayConfig,
        wallet_address: &str,
        max_quote_currency_amount: &str,
    ) -> Result<String, String>;
}

/// What a MoonPay purchase is made for: where the coins go and how much may be bought.
pub trait MoonPayUrlData {
    fn bitcoin_address(&self) -> String;

    fn max_allowed_deposit(&self) -> String;
}

/// Signed MoonPay URLs for a configuration.
pub struct MoonPayApi<S: MoonPayUrlSigner> {
    config: MoonPayConfig,
    signer: S,
}

impl<S: MoonPayUrlSigner> MoonPayApi<S> {
    pub closed spec fn config(&self) -> MoonPayConfig {
        self.config
    }

    pub closed spec fn signer(&self) -> S {
        self.signer
    }

    pub fn new(config: MoonPayConfig, signer: S) -> (r: Self)
        ensures
            r.config() == config,
            r.signer() == signer,
    {
        Self { config, signer }
    }

    /// Asks the signer for the URL that buys up to the data's amount for its address.
    pub fn sign_moon_pay_url<D: MoonPayUrlData>(&mut self, url_data: &D) -> (r: Result<String, String>)
        ensures
            final(self).config() == old(self).config(),
    {
        let address = url_data.bitcoin_address();
        let amount = url_data.max_allowed_deposit();
        self.signer.sign_moon_pay_url(&self.config, address.as_str(), amount.as_str())
    }
}

/// Whether the string parses as an absolute URL.
pub uninterp spec fn url_parses(s: Seq<char>) -> bool;

/// The query of a URL once the key-value pairs are appended to it, form-encoded.
pub uninterp spec fn query_with_params(base: Seq<char>, pairs: Seq<(Seq<char>, Seq<char>)>) -> Seq<char>;

/// Relies on reqwest's `Url::parse_with_params`, which fails only when the base does not parse
/// and otherwise always leaves a query, and on `Url::query`.
#[verifier::external_body]
fn url_query(base: &str, pairs: &Vec<(String, String)>) -> (r: Option<String>)
    ensures
        r is Some <==> url_parses(base@),
        r matches Some(q) ==> q@ == query_with_params(
            base@,
            pairs@.map_values(|p: (String, String)| (p.0@, p.1@)),
        ),
{
    reqwest::Url::parse_with_params(base, pairs).ok().map(|u| u.query().unwrap_or_default().to_string())
}

/// What the signing service is asked to sign: the widget's base URL and its query.
pub struct SignUrlRequest {
    pub base_url: String,
    pub query_string: String,
}

/// The widget parameters of a purchase, in the order they appear in the URL.
pub open spec fn signing_params(config: MoonPayConfig, wallet_address: Seq<char>, max_quote_currency_amount: Seq<
    char,
>) -> Seq<(Seq<char>, Seq<char>)> {
    seq![
        ("apiKey"@, config.api_key@),
        ("currencyCode"@, config.currency_code@),
        ("colorCode"@, config.color_code@),
        ("redirectURL"@, config.redirect_url@),
        ("enabledPaymentMethods"@, config.enabled_payment_methods@),
        ("walletAddress"@, wallet_address),
        ("maxQuoteCurrencyAmount"@, max_quote_currency_amount),
    ]
}

/// The request that asks the signing service for a purchase URL; none when the configured base
/// URL does not parse.
pub fn sign_url_request(config: &MoonPayConfig, wallet_address: &str, max_quote_currency_amount: &str) -> (r:
    Option<SignUrlRequest>)
    ensures
        r is Some <==> url_parses(config.base_url@),
        r matches Some(req) ==> {
            &&& req.base_url@ == config.base_url@
            &&& req.query_string@ == seq!['?'] + query_with_params(
                config.base_url@,
                signing_params(*config, wallet_address@, max_quote_currency_amount@),
            )
        },
{
    let pairs: Vec<(String, String)> = vec![
        (String::from_str("apiKey"), config.api_key.clone()),
        (String::from_str("currencyCode"), config.currency_code.clone()),
        (String::from_str("colorCode"), config.color_code.clone()),
        (String::from_str("redirectURL"), config.redirect_url.clone()),
        (String::from_str("enabledPaymentMethods"), config.enabled_payment_methods.clone()),
        (String::from_str("walletAddress"), String::from_str(wallet_address)),
        (String::from_str("maxQuoteCurrencyAmount"), String::from_str(max_quote_currency_amount)),
    ];
    assert(pairs@.map_values(|p: (String, String)| (p.0@, p.1@)) =~= signing_params(
        *config,
        wallet_address@,
        max_quote_currency_amount@,
    ));
    let query = url_query(config.base_url.as_str(), &pairs)?;
    proof {
        reveal_strlit("?");
    }
    let query_string = String::from_str("?").concat(query.as_str());
    Some(SignUrlRequest { base_url: config.base_url.clone(), query_string })
}

/// A decimal digit.
pub open spec fn digit_char(d: int) -> char {
    ('0' as int + d) as char
}

/// The decimal digits of a natural number, without leading zeros.
pub open spec fn decimal_text(n: nat) -> Seq<char>
    decreases n,
{
    if n < 10 {
        seq![digit_char(n as int)]
    } else {
        decimal_text(n / 10).push(digit_char((n % 10) as int))
    }
}

/// The last `width` decimal digits of a number, with leading zeros.
pub open spec fn padded_text(n: nat, width: nat) -> Seq<char>
    decreases width,
{
    if width == 0 {
        Seq::empty()
    } else {
        padded_text(n / 10, (width - 1) as nat).push(digit_char((n % 10) as int))
    }
}

/// Satoshis in one bitcoin.
pub const SATS_PER_BTC: u64 = 100_000_000;

/// An amount of satoshis written in bitcoin with eight decimals, such as `9.87654321`.
pub open spec fn btc_amount_text(sats: int) -> Seq<char> {
    let a = if sats < 0 {
        -sats
    } else {
        sats
    };
    let sign = if sats < 0 {
        seq!['-']
    } else {
        Seq::empty()
    };
    sign + decimal_text((a / SATS_PER_BTC as int) as nat) + seq!['.'] + padded_text(
        (a % SATS_PER_BTC as int) as nat,
        8,
    )
}

fn digit_str(d: u64) -> (r: &'static str)
    requires
        d < 10,
    ensures
        r@ == seq![digit_char(d as int)],
{
    proof {
        reveal_strlit("0");
        reveal_strlit("1");
        reveal_strlit("2");
        reveal_strlit("3");
        reveal_strlit("4");
        reveal_strlit("5");
        reveal_strlit("6");
        reveal_strlit("7");
        reveal_strlit("8");
        reveal_strlit("9");
    }
    let r = match d {
        0 => "0",
        1 => "1",
        2 => "2",
        3 => "3",
        4 => "4",
        5 => "5",
        6 => "6",
        7 => "7",
        8 => "8",
        _ => "9",
    };
    assert(r@ =~= seq![digit_char(d as int)]);
    r
}

fn push_decimal(s: &mut String, n: u64)
    ensures
        final(s)@ == old(s)@ + decimal_text(n as nat),
    decreases n,
{
    if n >= 10 {
        push_decimal(s, n / 10);
    }
    s.append(digit_str(n % 10));
    assert(decimal_text(n as nat) =~= if n < 10 {
        seq![digit_char(n as int)]
    } else {
        decimal_text((n / 10) as nat).push(digit_char((n % 10) as int))
    });
}

fn push_padded(s: &mut String, n: u64, width: u64)
    ensures
        final(s)@ == old(s)@ + padded_text(n as nat, width as nat),
    decreases width,
{
    if width > 0 {
        push_padded(s, n / 10, width - 1);
        s.append(digit_str(n % 10));
    }
}

/// Writes an amount of satoshis in bitcoin with eight decimals.
pub fn format_btc_amount(sats: i64) -> (r: String)
    ensures
        r@ == btc_amount_text(sats as int),
{
    let mut r = String::new();
    let a: u64 = if sats < 0 {
        proof {
            reveal_strlit("-");
        }
        r.append("-");
        (-(sats as i128)) as u64
    } else {
        sats as u64
    };
    push_decimal(&mut r, a / SATS_PER_BTC);
    proof {
        reveal_strlit(".");
    }
    r.append(".");
    push_padded(&mut r, a % SATS_PER_BTC, 8);
    proof {
        let sign = if sats < 0 {
            seq!['-']
        } else {
            Seq::<char>::empty()
        };
        assert(r@ =~= sign + decimal_text((a / SATS_PER_BTC) as nat) + seq!['.'] + padded_text(
            (a % SATS_PER_BTC) as nat,
            8,
        ));
    }
    r
}

impl MoonPayUrlData for SwapInfo {
    fn bitcoin_address(&self) -> (r: String)
        ensures
            r@ == self.bitcoin_address@,
    {
        self.bitcoin_address.clone()
    }

    fn max_allowed_deposit(&self) -> (r: String)
        ensures
            r@ == btc_amount_text(self.max_allowed_deposit as int),
    {
        format_btc_amount(self.max_allowed_deposit)
    }
}

} // verus!
