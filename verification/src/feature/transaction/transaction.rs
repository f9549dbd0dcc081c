use vstd::prelude::*;

verus! {

/// Why a product cannot go into a cart.
#[derive(Clone, Copy, Debug, PartialEq, Eq, Structural)]
pub enum CartError {
    /// The product is out of stock.
    StockEmpty,
    /// The stock is smaller than the quantity asked for.
    StockInsufficient,
}

/// How a cart change moves a product's stock.
#[derive(Clone, Copy, Debug, PartialEq, Eq, Structural)]
pub enum StockMove {
    /// The stock goes down by this many.
    Decrease(i64),
    /// The stock goes up by this many.
    Increase(i64),
}

/// The changes a cart request makes: the cart line's new quantity, whether the line is new,
/// and the move of the product's stock.
#[derive(Clone, Copy, Debug, PartialEq, Eq, Structural)]
pub struct CartPlan {
    pub cart_quantity: i64,
    pub creates_line: bool,
    pub stock_move: StockMove,
}

/// Both cart requests refuse a product that is out of stock, then one whose stock is below
/// the quantity asked for.
pub open spec fn cart_refusal(stock: i64, quantity: i64) -> Option<CartError> {
    if stock < 1 {
        Some(CartError::StockEmpty)
    } else if stock < quantity {
        Some(CartError::StockInsufficient)
    } else {
        None
    }
}

/// Adding `quantity` of a product with `stock` in store to a cart whose line for it holds
/// `line` (if there is one): the line grows by the quantity (or is created with it) and the
/// stock goes down by it.
pub open spec fn add_plan(stock: i64, line: Option<i64>, quantity: i64) -> Result<CartPlan, CartError> {
    match cart_refusal(stock, quantity) {
        Some(e) => Err(e),
        None => match line {
            Some(c) => Ok(
                CartPlan {
                    cart_quantity: (c + quantity) as i64,
                    creates_line: false,
                    stock_move: StockMove::Decrease(quantity),
                },
            ),
            None => Ok(
                CartPlan {
                    cart_quantity: quantity,
                    creates_line: true,
                    stock_move: StockMove::Decrease(quantity),
                },
            ),
        },
    }
}

/// Taking `quantity` of a product back from a cart whose line for it holds `line` (if there is
/// one): the line shrinks by the quantity (a missing line is created with the quantity) and
/// the stock goes up by it.
pub open spec fn remove_plan(stock: i64, line: Option<i64>, quantity: i64) -> Result<CartPlan, CartError> {
    match cart_refusal(stock, quantity) {
        Some(e) => Err(e),
        None => match line {
            Some(c) => Ok(
                CartPlan {
                    cart_quantity: (c - quantity) as i64,
                    creates_line: false,
                    stock_move: StockMove::Increase(quantity),
                },
            ),
            None => Ok(
                CartPlan {
                    cart_quantity: quantity,
                    creates_line: true,
                    stock_move: StockMove::Increase(quantity),
                },
            ),
        },
    }
}

/// Plans adding `quantity` of a product to a member's cart.
pub fn plan_add_to_cart(stock: i64, line: Option<i64>, quantity: i64) -> (r: Result<CartPlan, CartError>)
    requires
        cart_refusal(stock, quantity) is None ==> (line matches Some(c) ==> i64::MIN <= c + quantity
            <= i64::MAX),
    ensures
        r == add_plan(stock, line, quantity),
{
    if stock < 1 {
        return Err(CartError::StockEmpty);
    }
    if stock < quantity {
        return Err(CartError::StockInsufficient);
    }
    match line {
        Some(c) => Ok(
            CartPlan {
                cart_quantity: c + quantity,
                creates_line: false,
                stock_move: StockMove::Decrease(quantity),
            },
        ),
        None => Ok(
            CartPlan {
                cart_quantity: quantity,
                creates_line: true,
                stock_move: StockMove::Decrease(quantity),
            },
        ),
    }
}

/// Plans taking `quantity` of a product back from a member's cart.
pub fn plan_remove_from_cart(stock: i64, line: Option<i64>, quantity: i64) -> (r: Result<CartPlan, CartError>)
    requires
        cart_refusal(stock, quantity) is None ==> (line matches Some(c) ==> i64::MIN <= c - quantity
            <= i64::MAX),
    ensures
        r == remove_plan(stock, line, quantity),
{
    if stock < 1 {
        return Err(CartError::StockEmpty);
    }
    if stock < quantity {
        return Err(CartError::StockInsufficient);
    }
    match line {
        Some(c) => Ok(
            CartPlan {
                cart_quantity: c - quantity,
                creates_line: false,
                stock_move: StockMove::Increase(quantity),
            },
        ),
        None => Ok(
            CartPlan {
                cart_quantity: quantity,
                creates_line: true,
                stock_move: StockMove::Increase(quantity),
            },
        ),
    }
}

/// The stock after a move.
pub open spec fn moved(stock: int, m: StockMove) -> int {
    match m {
        StockMove::Decrease(q) => stock - q,
        StockMove::Increase(q) => stock + q,
    }
}

/// Adding a quantity to a cart line and then taking the same quantity back leaves the line and
/// the stock as they were.
pub proof fn law_cart_add_then_remove(stock: i64, c: i64, q: i64)
    requires
        add_plan(stock, Some(c), q) is Ok,
        i64::MIN <= c + q <= i64::MAX,
        i64::MIN <= stock - q <= i64::MAX,
        remove_plan((stock - q) as i64, Some((c + q) as i64), q) is Ok,
    ensures
        ({
            let p1 = add_plan(stock, Some(c), q)->Ok_0;
            let p2 = remove_plan((stock - q) as i64, Some(p1.cart_quantity), q)->Ok_0;
            &&& p2.cart_quantity == c
            &&& moved(moved(stock as int, p1.stock_move), p2.stock_move) == stock
        }),
{
}

/// A product goes into a cart only when its stock covers the quantity: the stock never drops
/// below zero by adding to a cart.
pub proof fn law_cart_add_keeps_stock(stock: i64, line: Option<i64>, q: i64)
    requires
        add_plan(stock, line, q) is Ok,
    ensures
        moved(stock as int, add_plan(stock, line, q)->Ok_0.stock_move) >= 0,
{
}

/// The positions of the first `n` cart lines that a checkout bills, in order: the lines that
/// are stored (have an id) and whose product still exists.
pub open spec fn billed_lines(has_id: Seq<bool>, has_product: Seq<bool>, n: nat) -> Seq<usize>
    decreases n,
{
    if n == 0 {
        Seq::empty()
    } else {
        let prev = billed_lines(has_id, has_product, (n - 1) as nat);
        if has_id[n - 1] && has_product[n - 1] {
            prev.push((n - 1) as usize)
        } else {
            prev
        }
    }
}

/// The cart lines a checkout bills, given for each line whether it is stored and whether its
/// product still exists. A checkout with no line to bill is refused.
pub fn billed_cart_lines(has_id: &Vec<bool>, has_product: &Vec<bool>) -> (r: Vec<usize>)
    requires
        has_id.len() == has_product.len(),
    ensures
        r@ == billed_lines(has_id@, has_product@, has_id.len() as nat),
{
    let mut r: Vec<usize> = Vec::new();
    let mut i: usize = 0;
    while i < has_id.len()
        invariant
            has_id.len() == has_product.len(),
            i <= has_id.len(),
            r@ == billed_lines(has_id@, has_product@, i as nat),
        decreases has_id.len() - i,
    {
        if has_id[i] && has_product[i] {
            r.push(i);
        }
        i = i + 1;
    }
    r
}

} // verus!
