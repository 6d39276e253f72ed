use vstd::prelude::*;

verus! {

/// The request line that asks for the greeting page, `GET / HTTP/1.1`
/// followed by CR LF, as ASCII bytes.
pub open spec fn hello_line() -> Seq<u8> {
    seq![71u8, 69, 84, 32, 47, 32, 72, 84, 84, 80, 47, 49, 46, 49, 13, 10]
}

/// The request line that asks for the greeting page after a pause,
/// `GET /sleep HTTP/1.1` followed by CR LF, as ASCII bytes.
pub open spec fn sleep_line() -> Seq<u8> {
    seq![
        71u8, 69, 84, 32, 47, 115, 108, 101, 101, 112, 32,
        72, 84, 84, 80, 47, 49, 46, 49, 13, 10,
    ]
}

pub open spec fn starts_with(b: Seq<u8>, prefix: Seq<u8>) -> bool {
    prefix.len() <= b.len() && b.subrange(0, prefix.len() as int) == prefix
}

/// How a request is answered.
#[derive(PartialEq, Eq, Structural, Clone, Copy, Debug)]
pub enum Route {
    /// The greeting page, at once.
    Hello,
    /// The greeting page, after a pause.
    Sleep,
    /// The not-found page.
    NotFound,
}

pub open spec fn route_of(request: Seq<u8>) -> Route {
    if starts_with(request, hello_line()) {
        Route::Hello
    } else if starts_with(request, sleep_line()) {
        Route::Sleep
    } else {
        Route::NotFound
    }
}

fn has_prefix(b: &[u8], prefix: &[u8]) -> (r: bool)
    ensures
        r == starts_with(b@, prefix@),
{
    if prefix.len() > b.len() {
        return false;
    }
    let mut i: usize = 0;
    while i < prefix.len()
        invariant
            prefix.len() <= b.len(),
            i <= prefix.len(),
            b@.subrange(0, i as int) == prefix@.subrange(0, i as int),
        decreases prefix.len() - i,
    {
        if b[i] != prefix[i] {
            assert(b@.subrange(0, prefix@.len() as int)[i as int] != prefix@[i as int]);
            return false;
        }
        i = i + 1;
        assert(b@.subrange(0, i as int) =~= prefix@.subrange(0, i as int));
    }
    assert(prefix@.subrange(0, i as int) =~= prefix@);
    true
}

/// Decides how to answer a request from the bytes read off the connection.
pub fn classify(request: &[u8]) -> (r: Route)
    ensures
        r == route_of(request@),
{
    let hello: [u8; 16] = [71, 69, 84, 32, 47, 32, 72, 84, 84, 80, 47, 49, 46, 49, 13, 10];
    let sleep: [u8; 21] = [
        71, 69, 84, 32, 47, 115, 108, 101, 101, 112, 32,
        72, 84, 84, 80, 47, 49, 46, 49, 13, 10,
    ];
    assert(hello@ =~= hello_line());
    assert(sleep@ =~= sleep_line());
    if has_prefix(request, hello.as_slice()) {
        Route::Hello
    } else if has_prefix(request, sleep.as_slice()) {
        Route::Sleep
    } else {
        Route::NotFound
    }
}

impl Route {
    /// The status line sent back for this route.
    pub fn status_line(&self) -> (r: &'static str)
        ensures
            r@ == (if *self == Route::NotFound {
                "HTTP/1.1 400 NOT FOUND"@
            } else {
                "HTTP/1.1 200 OK"@
            }),
    {
        match self {
            Route::NotFound => "HTTP/1.1 400 NOT FOUND",
            _ => "HTTP/1.1 200 OK",
        }
    }

    /// The file whose contents make the body sent back for this route.
    pub fn page(&self) -> (r: &'static str)
        ensures
            r@ == (if *self == Route::NotFound {
                "404.html"@
            } else {
                "hello.html"@
            }),
    {
        match self {
            Route::NotFound => "404.html",
            _ => "hello.html",
        }
    }
}

/// The decimal digits of `n` as ASCII bytes, most significant first.
pub open spec fn decimal(n: nat) -> Seq<u8>
    decreases n,
{
    if n < 10 {
        seq![(48 + n) as u8]
    } else {
        decimal(n / 10).push((48 + n % 10) as u8)
    }
}

/// The bytes between the status line and the decimal body length: CR LF,
/// then `Content-Lenght: ` (the header name as this server has always sent it).
pub open spec fn length_header() -> Seq<u8> {
    seq![13u8, 10, 67, 111, 110, 116, 101, 110, 116, 45, 76, 101, 110, 103, 104, 116, 58, 32]
}

/// The blank line that ends the header: CR LF CR LF.
pub open spec fn header_end() -> Seq<u8> {
    seq![13u8, 10, 13, 10]
}

/// The full response: status line, length header, blank line, body.
pub open spec fn response_bytes(status: Seq<u8>, body: Seq<u8>) -> Seq<u8> {
    status + length_header() + decimal(body.len()) + header_end() + body
}

fn push_all(out: &mut Vec<u8>, b: &[u8])
    ensures
        final(out)@ == old(out)@ + b@,
{
    let mut i: usize = 0;
    while i < b.len()
        invariant
            i <= b.len(),
            out@ == old(out)@ + b@.subrange(0, i as int),
        decreases b.len() - i,
    {
        out.push(b[i]);
        i = i + 1;
        assert(out@ =~= old(out)@ + b@.subrange(0, i as int));
    }
    assert(b@.subrange(0, i as int) =~= b@);
}

fn push_decimal(out: &mut Vec<u8>, n: usize)
    ensures
        final(out)@ == old(out)@ + decimal(n as nat),
    decreases n,
{
    if n >= 10 {
        push_decimal(out, n / 10);
    }
    let digit: u8 = (48 + n % 10) as u8;
    out.push(digit);
    assert(out@ =~= old(out)@ + decimal(n as nat));
}

/// Builds the response that carries `body` under `status`, with the body's
/// length in bytes in its header.
pub fn response(status: &[u8], body: &[u8]) -> (r: Vec<u8>)
    ensures
        r@ == response_bytes(status@, body@),
{
    let header: [u8; 18] = [13, 10, 67, 111, 110, 116, 101, 110, 116, 45, 76, 101, 110, 103, 104, 116, 58, 32];
    let end: [u8; 4] = [13, 10, 13, 10];
    assert(header@ =~= length_header());
    assert(end@ =~= header_end());
    let mut out: Vec<u8> = Vec::new();
    push_all(&mut out, status);
    push_all(&mut out, header.as_slice());
    push_decimal(&mut out, body.len());
    push_all(&mut out, end.as_slice());
    push_all(&mut out, body);
    assert(out@ =~= response_bytes(status@, body@));
    out
}

} // verus!
