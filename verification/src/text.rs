//! Decimal numbers and `http` addresses as text.

use vstd::prelude::*;

verus! {

/// The character of a decimal digit.
pub open spec fn digit(d: nat) -> char {
    if d == 0 { '0' }
    else if d == 1 { '1' }
    else if d == 2 { '2' }
    else if d == 3 { '3' }
    else if d == 4 { '4' }
    else if d == 5 { '5' }
    else if d == 6 { '6' }
    else if d == 7 { '7' }
    else if d == 8 { '8' }
    else { '9' }
}

/// A number in base ten, without leading zeros.
pub open spec fn decimal(n: nat) -> Seq<char>
    decreases n,
{
    if n < 10 {
        seq![digit(n)]
    } else {
        decimal(n / 10).push(digit(n % 10))
    }
}

/// The address of an endpoint: scheme, host and port.
pub open spec fn http_url(host: Seq<char>, port: u16) -> Seq<char> {
    "http://"@ + host + ":"@ + decimal(port as nat)
}

fn digit_text(d: u16) -> (r: &'static str)
    requires
        d < 10,
    ensures
        r@ == seq![digit(d as nat)],
{
    proof {
        reveal_strlit("0");
        reveal_strlit("1");
        reveal_strlit("2");
        reveal_strlit("3");
        reveal_strlit("4");
        reveal_strlit("5");
        reveal_strlit("6");
        reveal_strlit("7");
        reveal_strlit("8");
        reveal_strlit("9");
    }
    let r = match d {
        0 => "0",
        1 => "1",
        2 => "2",
        3 => "3",
        4 => "4",
        5 => "5",
        6 => "6",
        7 => "7",
        8 => "8",
        _ => "9",
    };
    assert(r@ =~= seq![digit(d as nat)]);
    r
}

/// Writes a port number in base ten.
pub fn decimal_text(n: u16) -> (r: String)
    ensures
        r@ == decimal(n as nat),
    decreases n,
{
    if n < 10 {
        digit_text(n).to_string()
    } else {
        let mut r = decimal_text(n / 10);
        r.append(digit_text(n % 10));
        assert(r@ =~= decimal((n / 10) as nat).push(digit((n % 10) as nat)));
        r
    }
}

/// Joins two texts.
pub fn join(a: &str, b: &str) -> (r: String)
    ensures
        r@ == a@ + b@,
{
    let mut r = a.to_string();
    r.append(b);
    r
}

/// Writes the address at which `host` serves `port`.
pub fn http_url_text(host: &str, port: u16) -> (r: String)
    ensures
        r@ == http_url(host@, port),
        r@ == "http://"@ + host@ + ":"@ + decimal(port as nat),
{
    let mut r = join("http://", host);
    r.append(":");
    let port_text = decimal_text(port);
    r.append(port_text.as_str());
    r
}

/// Every character of a decimal number is a digit, so none is a colon.
proof fn lemma_decimal_chars(n: nat)
    ensures
        decimal(n).len() >= 1,
        forall|i: int| 0 <= i < decimal(n).len() ==> #[trigger] decimal(n)[i] != ':',
    decreases n,
{
    if n >= 10 {
        lemma_decimal_chars(n / 10);
    }
}

/// Two numbers are equal when their decimal texts are.
proof fn lemma_decimal_injective(a: nat, b: nat)
    requires
        decimal(a) == decimal(b),
    ensures
        a == b,
    decreases a,
{
    lemma_decimal_chars(a / 10);
    lemma_decimal_chars(b / 10);
    assert(decimal(a).last() == digit(a % 10));
    assert(decimal(b).last() == digit(b % 10));
    assert(a % 10 == b % 10);
    if a >= 10 {
        assert(decimal(a).len() >= 2);
        assert(b >= 10);
        assert(decimal(a).drop_last() =~= decimal(a / 10));
        assert(decimal(b).drop_last() =~= decimal(b / 10));
        lemma_decimal_injective(a / 10, b / 10);
    } else if b >= 10 {
        assert(decimal(b).len() >= 2);
    }
}

/// An address names one endpoint: equal addresses have the same host and the same port.
pub proof fn law_address_names_one_endpoint(
    host_a: Seq<char>,
    port_a: u16,
    host_b: Seq<char>,
    port_b: u16,
)
    requires
        http_url(host_a, port_a) == http_url(host_b, port_b),
    ensures
        host_a == host_b,
        port_a == port_b,
{
    let url_a = http_url(host_a, port_a);
    let url_b = http_url(host_b, port_b);
    let dec_a = decimal(port_a as nat);
    let dec_b = decimal(port_b as nat);
    let len_a: int = host_a.len() as int;
    let len_b: int = host_b.len() as int;
    reveal_strlit("http://");
    reveal_strlit(":");
    lemma_decimal_chars(port_a as nat);
    lemma_decimal_chars(port_b as nat);
    assert(url_a.len() == 8 + len_a + dec_a.len());
    assert(url_b.len() == 8 + len_b + dec_b.len());
    assert(url_a[7 + len_a] == ':');
    assert(url_b[7 + len_b] == ':');
    if len_a < len_b {
        assert(url_a[7 + len_b] == dec_a[len_b - len_a - 1]);
    } else if len_b < len_a {
        assert(url_b[7 + len_a] == dec_b[len_a - len_b - 1]);
    }
    assert(host_a =~= url_a.subrange(7, 7 + len_a));
    assert(host_b =~= url_b.subrange(7, 7 + len_b));
    assert(dec_a =~= url_a.subrange(8 + len_a, url_a.len() as int));
    assert(dec_b =~= url_b.subrange(8 + len_b, url_b.len() as int));
    lemma_decimal_injective(port_a as nat, port_b as nat);
}

/// The number that a text of decimal digits stands for.
pub open spec fn digits_value(text: Seq<char>) -> int
    decreases text.len(),
{
    if text.len() == 0 {
        0
    } else {
        10 * digits_value(text.drop_last()) + (text.last() as int - '0' as int)
    }
}

/// A number reads back from its decimal text, which holds nothing but digits and, but for
/// zero itself, does not begin with a zero.
pub proof fn law_decimal_reads_back(n: nat)
    ensures
        digits_value(decimal(n)) == n,
        decimal(n).len() >= 1,
        forall|i: int| 0 <= i < decimal(n).len() ==> '0' <= #[trigger] decimal(n)[i] <= '9',
        n > 0 ==> decimal(n)[0] != '0',
    decreases n,
{
    let text = decimal(n);
    if n < 10 {
        assert(text.drop_last() =~= Seq::empty());
        assert(digits_value(text.drop_last()) == 0);
    } else {
        law_decimal_reads_back(n / 10);
        assert(text.drop_last() =~= decimal(n / 10));
        assert(text[0] == decimal(n / 10)[0]);
        assert(n == 10 * (n / 10) + n % 10);
    }
}

/// An address is made of the scheme, the host as it is, a colon, and the port in base ten.
pub proof fn law_address_has_its_parts(host: Seq<char>, port: u16)
    ensures
        ({
            let url = http_url(host, port);
            let colon = 7 + host.len() as int;
            &&& colon < url.len()
            &&& url.subrange(0, 7) == "http://"@
            &&& url.subrange(7, colon) == host
            &&& url[colon] == ':'
            &&& digits_value(url.subrange(colon + 1, url.len() as int)) == port
            &&& url.subrange(colon + 1, url.len() as int) == decimal(port as nat)
        }),
{
    reveal_strlit("http://");
    reveal_strlit(":");
    let url = http_url(host, port);
    let colon = 7 + host.len() as int;
    law_decimal_reads_back(port as nat);
    assert(url.subrange(0, 7) =~= "http://"@);
    assert(url.subrange(7, colon) =~= host);
    assert(url.subrange(colon + 1, url.len() as int) =~= decimal(port as nat));
}

/// The addresses of the ports that containers serve, written out.
pub proof fn law_addresses_of_container_ports(host: Seq<char>)
    ensures
        decimal(3000) == "3000"@,
        http_url(host, 3000) == "http://"@ + host + ":3000"@,
        http_url(host, 3030) == "http://"@ + host + ":3030"@,
        http_url(host, 4566) == "http://"@ + host + ":4566"@,
{
    reveal_strlit(":");
    reveal_strlit("3000");
    reveal_strlit(":3000");
    reveal_strlit(":3030");
    reveal_strlit(":4566");
    reveal_with_fuel(decimal, 5);
    assert(decimal(3000) =~= "3000"@);
    assert(http_url(host, 3000) =~= "http://"@ + host + ":3000"@);
    assert(http_url(host, 3030) =~= "http://"@ + host + ":3030"@);
    assert(http_url(host, 4566) =~= "http://"@ + host + ":4566"@);
}

} // verus!
