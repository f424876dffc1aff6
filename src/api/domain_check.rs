//! The domain availability check command.
use vstd::prelude::*;

use crate::args::sharing_id::{with_sharing_id, SharingSpace};
use crate::command_handler::GandiSubCommandHandler;
use crate::config::{headers_spec, opt_view, or_else, Configuration};
use crate::display::{
    flatten_lines, lemma_flatten_lines_step, lines_view, print_info, Line, LineView,
};
use crate::parsed_args::ParsedArgs;
use crate::request::{Request, RequestView};
use crate::text::{decimal, decimal_spec, str_eq};

verus! {

/// Path of the route.
pub const ROUTE: &'static str = "/v5/domain/check";

/// A tax applied to a price.
#[derive(Debug)]
pub struct Tax {
    pub name: String,
    /// Type of the tax.
    pub type_: String,
    /// Tax rate in percent, as decimal text.
    pub rate: String,
}

/// Options of a price.
#[derive(Debug)]
pub struct PriceOptions {
    /// Registration period: sunrise, landrush, golive.
    pub period: Option<String>,
}

/// A registration period, with its bounds in seconds since the Unix epoch.
#[derive(Debug)]
pub struct Period {
    pub name: String,
    pub starts_at: i64,
    pub ends_at: i64,
}

/// The price of a product for a range of durations.
#[derive(Debug)]
pub struct Price {
    pub min_duration: usize,
    pub max_duration: usize,
    /// Unit of the durations.
    pub duration_unit: String,
    /// Whether the price is a temporary discount.
    pub discount: Option<bool>,
    /// Price without taxes, as decimal text.
    pub price_before_taxes: String,
    /// Price taxes included, as decimal text.
    pub price_after_taxes: String,
    pub options: PriceOptions,
}

/// A product: one domain name, with its status and prices.
#[derive(Debug)]
pub struct Product {
    /// The process the prices are for.
    pub process: Option<String>,
    /// Availability of the name.
    pub status: String,
    /// The domain name.
    pub name: String,
    pub prices: Option<Vec<Price>>,
    /// Taxes applied, if any.
    pub taxes: Vec<Tax>,
    pub period: Option<Vec<Period>>,
}

/// Availability of domain names, as the API returns it.
#[derive(Debug)]
pub struct DomainCheck {
    /// Currency of the prices.
    pub currency: String,
    /// Price grid.
    pub grid: String,
    pub products: Option<Vec<Product>>,
}

/// A product's process, or `???` where it has none.
pub open spec fn process_label(p: Product) -> Seq<char> {
    or_else(opt_view(p.process), "???"@)
}

/// The line of one price of an available product: process, name, duration
/// range and period, then the price with taxes and the currency.
pub open spec fn price_line(p: Product, price: Price, currency: Seq<char>) -> LineView {
    LineView::Info(
        process_label(p) + " "@ + p.name@ + " "@ + (decimal_spec(price.min_duration as nat)
            + price.duration_unit@ + "->"@ + decimal_spec(price.max_duration as nat)
            + price.duration_unit@) + " "@ + or_else(opt_view(price.options.period), "golive"@),
        price.price_after_taxes@ + " "@ + currency,
    )
}

/// The lines of one product: its status where it is not available, else
/// one line per price.
pub open spec fn product_lines(p: Product, currency: Seq<char>) -> Seq<LineView> {
    if p.status@ != "available"@ {
        seq![LineView::Info(process_label(p) + " "@ + p.name@, p.status@)]
    } else {
        match p.prices {
            Some(prices) => flatten_lines(prices@, |price: Price| seq![price_line(p, price, currency)]),
            None => Seq::empty(),
        }
    }
}

/// The lines of a check: those of each product in turn.
pub open spec fn check_lines(c: DomainCheck) -> Seq<LineView> {
    match c.products {
        Some(products) => flatten_lines(products@, |p: Product| product_lines(p, c.currency@)),
        None => Seq::empty(),
    }
}

/// A product's process, or `???` where it has none.
fn process_of(p: &Product) -> (r: String)
    ensures
        r@ == process_label(*p),
{
    match &p.process {
        Some(s) => s.clone(),
        None => String::from_str("???"),
    }
}

/// Append the line of one price of an available product to `out`.
fn print_price(out: &mut Vec<Line>, p: &Product, price: &Price, currency: &String)
    ensures
        lines_view(final(out)@) == lines_view(old(out)@).push(price_line(*p, *price, currency@)),
{
    let mut range = decimal(price.min_duration);
    range.append(price.duration_unit.as_str());
    range.append("->");
    range.append(decimal(price.max_duration).as_str());
    range.append(price.duration_unit.as_str());
    let mut label = process_of(p);
    label.append(" ");
    label.append(p.name.as_str());
    label.append(" ");
    label.append(range.as_str());
    label.append(" ");
    match &price.options.period {
        Some(period) => label.append(period.as_str()),
        None => label.append("golive"),
    }
    let mut amount = price.price_after_taxes.clone();
    amount.append(" ");
    amount.append(currency.as_str());
    print_info(out, label.as_str(), amount.as_str());
}

/// Append the lines of one product to `out`.
fn print_product(out: &mut Vec<Line>, p: &Product, currency: &String)
    ensures
        lines_view(final(out)@) == lines_view(old(out)@) + product_lines(*p, currency@),
{
    let ghost before = lines_view(out@);
    if !str_eq(p.status.as_str(), "available") {
        let mut label = process_of(p);
        label.append(" ");
        label.append(p.name.as_str());
        print_info(out, label.as_str(), p.status.as_str());
        assert(lines_view(out@) =~= before + product_lines(*p, currency@));
    } else {
        match &p.prices {
            Some(prices) => {
                let ghost f = |price: Price| seq![price_line(*p, price, currency@)];
                let mut i: usize = 0;
                assert(before + flatten_lines(prices@.take(0), f) =~= before);
                while i < prices.len()
                    invariant
                        i <= prices@.len(),
                        f == (|price: Price| seq![price_line(*p, price, currency@)]),
                        lines_view(out@) == before + flatten_lines(prices@.take(i as int), f),
                    decreases prices@.len() - i,
                {
                    let ghost step = lines_view(out@);
                    print_price(out, p, &prices[i], currency);
                    proof {
                        lemma_flatten_lines_step(prices@, f, i as int);
                        assert(lines_view(out@) =~= before + flatten_lines(prices@.take(i + 1), f));
                    }
                    i = i + 1;
                }
                assert(prices@.take(prices@.len() as int) =~= prices@);
            },
            None => {
                assert(lines_view(out@) =~= before + product_lines(*p, currency@));
            },
        }
    }
}

/// The "check domain" command.
pub struct DomainCheckCommand {}

impl GandiSubCommandHandler for DomainCheckCommand {
    type Item = DomainCheck;

    open spec fn route_spec() -> Seq<Seq<char>> {
        seq!["check"@, "domain"@]
    }

    fn route() -> (r: Vec<&'static str>) {
        let r = vec!["check", "domain"];
        assert(crate::command_handler::names_view(r@) =~= Self::route_spec());
        r
    }

    /// The domain name to check is given.
    open spec fn accepts_spec(params: ParsedArgs) -> bool {
        params.spec_value_of("FQDN"@) is Some
    }

    fn accepts(params: &ParsedArgs) -> (r: bool) {
        params.value_of("FQDN").is_some()
    }

    /// The check of the name given, restricted to the organization where
    /// one is given.
    open spec fn request_spec(config: Configuration, params: ParsedArgs) -> RequestView {
        with_sharing_id(
            RequestView {
                url: config.endpoint@ + ROUTE@,
                headers: headers_spec(config.apikey@),
                query: seq![("name"@, params.spec_value_of("FQDN"@)->0)],
            },
            or_else(params.spec_value_of("SHARING_ID"@), Seq::empty()),
        )
    }

    fn build_req(config: &Configuration, params: &ParsedArgs) -> (r: Request) {
        let fqdn = params.value_of("FQDN").unwrap();
        let sharing_space = SharingSpace::from(params);
        let req = config.build_req(ROUTE).query("name", fqdn.as_str());
        assert(Seq::<(Seq<char>, Seq<char>)>::empty().push(("name"@, fqdn@)) =~= seq![("name"@, fqdn@)]);
        sharing_space.build_req(req)
    }

    open spec fn human_spec(item: DomainCheck) -> Seq<LineView> {
        check_lines(item)
    }

    fn display_human_result(item: &DomainCheck) -> (r: Vec<Line>) {
        let mut out: Vec<Line> = Vec::new();
        match &item.products {
            Some(products) => {
                let ghost f = |p: Product| product_lines(p, item.currency@);
                let mut i: usize = 0;
                assert(lines_view(out@) =~= flatten_lines(products@.take(0), f));
                while i < products.len()
                    invariant
                        i <= products@.len(),
                        f == (|p: Product| product_lines(p, item.currency@)),
                        lines_view(out@) == flatten_lines(products@.take(i as int), f),
                    decreases products@.len() - i,
                {
                    print_product(&mut out, &products[i], &item.currency);
                    proof {
                        lemma_flatten_lines_step(products@, f, i as int);
                    }
                    i = i + 1;
                }
                assert(products@.take(products@.len() as int) =~= products@);
            },
            None => {
                assert(lines_view(out@) =~= Seq::empty());
            },
        }
        out
    }

    open spec fn human_headers_spec(headers: Seq<(Seq<char>, Seq<char>)>) -> Seq<LineView> {
        Seq::empty()
    }

    fn display_human_headers(headers: &Vec<(String, String)>) -> (r: Vec<Line>) {
        let out: Vec<Line> = Vec::new();
        assert(lines_view(out@) =~= Seq::empty());
        out
    }
}

} // verus!
