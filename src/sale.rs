use vstd::prelude::*;
use vstd::string::*;

verus! {

/// Path on the downstream service that receives sale records.
pub const SALE_PATH: &'static str = "/venta";

/// A sale record as received from the caller.
///
/// The price is a 64-bit float; it is held as its IEEE-754 bit pattern, which
/// keeps every value, signs of zero and NaN payloads included, exactly as it
/// arrived.
pub struct SaleSubmission {
    pub categoria: String,
    pub producto: String,
    pub precio_bits: u64,
    pub cantidad_vendida: i32,
}

/// The one outbound call: where it goes and the record it carries.
pub struct OutboundRequest {
    pub url: String,
    pub body: SaleSubmission,
}

/// The downstream address for sale records under the base URL `base`.
pub open spec fn sale_url(base: Seq<char>) -> Seq<char> {
    base + SALE_PATH@
}

impl SaleSubmission {
    /// A sale record made of its four fields.
    pub fn new(categoria: String, producto: String, precio_bits: u64, cantidad_vendida: i32) -> (r:
        SaleSubmission)
        ensures
            r.categoria == categoria,
            r.producto == producto,
            r.precio_bits == precio_bits,
            r.cantidad_vendida == cantidad_vendida,
    {
        SaleSubmission { categoria, producto, precio_bits, cantidad_vendida }
    }
}

/// The downstream address for sale records: the base URL followed by the
/// sale path, with nothing inserted or removed between them.
pub fn downstream_url(base: &str) -> (r: String)
    ensures
        r@ == sale_url(base@),
{
    let url = String::from_str(base);
    url.concat(SALE_PATH)
}

/// The outbound call for `sale`: it goes to the sale path under `base` and
/// carries the record exactly as received, every field unchanged.
pub fn forward_request(base: &str, sale: SaleSubmission) -> (r: OutboundRequest)
    ensures
        r.url@ == sale_url(base@),
        r.body == sale,
        r.body.categoria@ == sale.categoria@,
        r.body.producto@ == sale.producto@,
        r.body.precio_bits == sale.precio_bits,
        r.body.cantidad_vendida == sale.cantidad_vendida,
{
    OutboundRequest { url: downstream_url(base), body: sale }
}

} // verus!
