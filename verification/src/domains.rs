//! The rules of the domain collection: what a name costs, which payment output
//! pays for it, how an instance id is stored, and who may transfer a domain.

use vstd::prelude::*;

verus! {

/// The name of the collection token.
pub const COLLECTION_NAME: &'static str = "Alkanes Domains";

/// The symbol of the collection token.
pub const COLLECTION_SYMBOL: &'static str = "alkanes-domains";

/// The transaction number of the template from which each domain orbital is made.
pub const DOMAIN_ORBITAL_TEMPLATE_ID: u128 = 0x3410;

/// The block number under which the template and the domain instances are addressed.
pub const INSTANCE_BLOCK: u128 = 6;

/// Shortest name that can be minted, in characters.
pub const MIN_NAME_CHARS: usize = 3;

/// Price in satoshis of a name of exactly three characters.
pub const PRICE_THREE_CHARS: u64 = 90909;

/// Price in satoshis of a name of exactly four characters.
pub const PRICE_FOUR_CHARS: u64 = 45455;

/// Price in satoshis of a name of five characters or more.
pub const PRICE_LONG_NAME: u64 = 9091;

/// Index of the transaction output that must pay the collection owner.
pub const PAYMENT_OUTPUT_INDEX: usize = 2;

/// Number of bytes of a stored instance id.
pub const INSTANCE_ID_BYTES: usize = 32;

/// The id of an alkane: the block that created it and its number in that block.
#[derive(Clone, Copy, Debug, PartialEq, Eq, Structural)]
pub struct AlkaneId {
    pub block: u128,
    pub tx: u128,
}

/// A transaction output, as far as the payment check reads it.
pub struct TxOutput {
    /// The locking script, as bytes.
    pub script_pubkey: Vec<u8>,
    /// The amount, in satoshis.
    pub value: u64,
}

/// Why a request on the collection was refused.
#[derive(Clone, Copy, Debug, PartialEq, Eq, Structural)]
pub enum DomainError {
    /// The name has fewer than three characters.
    NameTooShort,
    /// The transaction has no third output.
    MissingPaymentOutput,
    /// No owner script has been set, so no payment can be checked.
    OwnerScriptNotSet,
    /// The third output does not pay the owner script.
    WrongPaymentAddress,
    /// The third output pays less than the price of the name.
    PaymentTooLow,
    /// The name has already been minted.
    NameAlreadyMinted,
    /// The call carries no sender.
    MissingSender,
    /// The sender does not own the domain.
    NotOwner,
    /// A stored instance record is not 32 bytes long.
    InvalidInstanceData,
}

// ---------------------------------------------------------------------------
// Prices
// ---------------------------------------------------------------------------

/// The price of a name of `chars` characters, or why it cannot be minted.
pub open spec fn price_of_length(chars: nat) -> Result<u64, DomainError> {
    if chars < 3 {
        Err(DomainError::NameTooShort)
    } else if chars == 3 {
        Ok(PRICE_THREE_CHARS)
    } else if chars == 4 {
        Ok(PRICE_FOUR_CHARS)
    } else {
        Ok(PRICE_LONG_NAME)
    }
}

/// The number of satoshis that minting `name` costs; names shorter than three
/// characters are refused.
pub fn required_sats(name: &str) -> (res: Result<u64, DomainError>)
    ensures
        res == price_of_length(name@.len()),
        name@.len() < 3 <==> res == Err::<u64, DomainError>(DomainError::NameTooShort),
        name@.len() == 3 ==> res == Ok::<u64, DomainError>(PRICE_THREE_CHARS),
        name@.len() == 4 ==> res == Ok::<u64, DomainError>(PRICE_FOUR_CHARS),
        name@.len() >= 5 ==> res == Ok::<u64, DomainError>(PRICE_LONG_NAME),
{
    let name_len = name.unicode_len();
    if name_len < MIN_NAME_CHARS {
        return Err(DomainError::NameTooShort);
    }
    let price = match name_len {
        3 => PRICE_THREE_CHARS,
        4 => PRICE_FOUR_CHARS,
        _ => PRICE_LONG_NAME,
    };
    Ok(price)
}

/// The price list: names shorter than three characters are refused, three
/// characters cost 90909 satoshis, four cost 45455, and every longer name,
/// however long, costs 9091.
pub proof fn lemma_price_tiers(chars: nat)
    ensures
        chars < 3 <==> price_of_length(chars) == Err::<u64, DomainError>(DomainError::NameTooShort),
        chars == 3 ==> price_of_length(chars) == Ok::<u64, DomainError>(90909),
        chars == 4 ==> price_of_length(chars) == Ok::<u64, DomainError>(45455),
        chars >= 5 ==> price_of_length(chars) == Ok::<u64, DomainError>(9091),
        chars >= 3 ==> price_of_length(chars) is Ok,
{
}

/// Any two names of five characters or more cost the same, and that price is
/// above zero.
pub proof fn lemma_long_names_same_price(a: nat, b: nat)
    requires
        5 <= a,
        5 <= b,
    ensures
        price_of_length(a) == price_of_length(b),
        price_of_length(a) == Ok::<u64, DomainError>(PRICE_LONG_NAME),
        PRICE_LONG_NAME > 0,
{
}

/// A longer name never costs more than a shorter one that can be minted.
pub proof fn lemma_price_non_increasing(shorter: nat, longer: nat)
    requires
        3 <= shorter <= longer,
    ensures
        price_of_length(shorter) is Ok,
        price_of_length(longer) is Ok,
        price_of_length(longer)->Ok_0 <= price_of_length(shorter)->Ok_0,
{
}

// ---------------------------------------------------------------------------
// Payment
// ---------------------------------------------------------------------------

/// The outcome of checking that `outputs` pays at least `required` satoshis to
/// the owner script in its third output. The checks come in this order: the
/// third output exists, an owner script is set, the output pays that script,
/// the amount suffices.
pub open spec fn payment_outcome(
    outputs: Seq<TxOutput>,
    owner_script: Option<Vec<u8>>,
    required: u64,
) -> Result<(), DomainError> {
    if outputs.len() <= 2 {
        Err(DomainError::MissingPaymentOutput)
    } else if owner_script is None {
        Err(DomainError::OwnerScriptNotSet)
    } else if outputs[2].script_pubkey@ != owner_script->0@ {
        Err(DomainError::WrongPaymentAddress)
    } else if outputs[2].value < required {
        Err(DomainError::PaymentTooLow)
    } else {
        Ok(())
    }
}

/// Whether two byte strings are equal.
fn bytes_equal(a: &Vec<u8>, b: &Vec<u8>) -> (eq: bool)
    ensures
        eq == (a@ == b@),
{
    if a.len() != b.len() {
        return false;
    }
    let mut i: usize = 0;
    while i < a.len()
        invariant
            a.len() == b.len(),
            i <= a.len(),
            forall|j: int| 0 <= j < i ==> a@[j] == b@[j],
        decreases a.len() - i,
    {
        if a[i] != b[i] {
            return false;
        }
        i = i + 1;
    }
    assert(a@ =~= b@);
    true
}

/// Checks that the third output of the minting transaction pays at least
/// `required` satoshis to the owner script.
pub fn observe_output(outputs: &Vec<TxOutput>, owner_script: &Option<Vec<u8>>, required: u64) -> (res:
    Result<(), DomainError>)
    ensures
        res == payment_outcome(outputs@, *owner_script, required),
        res == Err::<(), DomainError>(DomainError::MissingPaymentOutput) <==> outputs@.len() <= 2,
        res == Err::<(), DomainError>(DomainError::OwnerScriptNotSet) <==> outputs@.len() > 2
            && owner_script.is_none(),
        res == Err::<(), DomainError>(DomainError::WrongPaymentAddress) <==> outputs@.len() > 2
            && owner_script.is_some() && outputs@[2].script_pubkey@ != owner_script.unwrap()@,
        res == Err::<(), DomainError>(DomainError::PaymentTooLow) <==> outputs@.len() > 2
            && owner_script.is_some() && outputs@[2].script_pubkey@ == owner_script.unwrap()@
            && outputs@[2].value < required,
        res is Ok <==> outputs@.len() > 2 && owner_script.is_some()
            && outputs@[2].script_pubkey@ == owner_script.unwrap()@ && outputs@[2].value
            >= required,
{
    if outputs.len() <= PAYMENT_OUTPUT_INDEX {
        return Err(DomainError::MissingPaymentOutput);
    }
    let output = &outputs[PAYMENT_OUTPUT_INDEX];
    let target = match owner_script {
        Some(t) => t,
        None => {
            return Err(DomainError::OwnerScriptNotSet);
        },
    };
    if !bytes_equal(&output.script_pubkey, target) {
        return Err(DomainError::WrongPaymentAddress);
    }
    if output.value < required {
        return Err(DomainError::PaymentTooLow);
    }
    Ok(())
}

/// The outcome of a request to mint `name`: the name must be long enough, the
/// transaction must pay its price to the owner, and the name must be free, in
/// that order.
pub open spec fn mint_outcome(
    name: Seq<char>,
    outputs: Seq<TxOutput>,
    owner_script: Option<Vec<u8>>,
    already_minted: bool,
) -> Result<u64, DomainError> {
    match price_of_length(name.len()) {
        Err(e) => Err(e),
        Ok(price) => match payment_outcome(outputs, owner_script, price) {
            Err(e) => Err(e),
            Ok(_) => if already_minted {
                Err(DomainError::NameAlreadyMinted)
            } else {
                Ok(price)
            },
        },
    }
}

/// Decides whether `name` may be minted by a transaction with `outputs`, given
/// the owner script and whether the name is taken; returns the price paid.
pub fn check_mint(
    name: &str,
    outputs: &Vec<TxOutput>,
    owner_script: &Option<Vec<u8>>,
    already_minted: bool,
) -> (res: Result<u64, DomainError>)
    ensures
        res == mint_outcome(name@, outputs@, *owner_script, already_minted),
        name@.len() < 3 ==> res == Err::<u64, DomainError>(DomainError::NameTooShort),
        ({
            let price = if name@.len() == 3 {
                PRICE_THREE_CHARS
            } else if name@.len() == 4 {
                PRICE_FOUR_CHARS
            } else {
                PRICE_LONG_NAME
            };
            &&& (name@.len() >= 3 && outputs@.len() > 2 && owner_script.is_some()
                && outputs@[2].script_pubkey@ == owner_script.unwrap()@ && outputs@[2].value
                >= price && !already_minted) ==> res == Ok::<u64, DomainError>(price)
            &&& (name@.len() >= 3 && outputs@.len() > 2 && owner_script.is_some()
                && outputs@[2].script_pubkey@ == owner_script.unwrap()@ && outputs@[2].value
                >= price && already_minted) ==> res == Err::<u64, DomainError>(
                DomainError::NameAlreadyMinted,
            )
            &&& (name@.len() >= 3 && outputs@.len() > 2 && owner_script.is_some()
                && outputs@[2].script_pubkey@ == owner_script.unwrap()@ && outputs@[2].value
                < price) ==> res == Err::<u64, DomainError>(DomainError::PaymentTooLow)
            &&& res is Ok ==> res == Ok::<u64, DomainError>(price) && name@.len() >= 3
                && !already_minted && outputs@.len() > 2 && owner_script.is_some()
                && outputs@[2].script_pubkey@ == owner_script.unwrap()@ && outputs@[2].value
                >= price
        }),
{
    let price = match required_sats(name) {
        Ok(p) => p,
        Err(e) => {
            return Err(e);
        },
    };
    match observe_output(outputs, owner_script, price) {
        Ok(()) => {},
        Err(e) => {
            return Err(e);
        },
    }
    if already_minted {
        return Err(DomainError::NameAlreadyMinted);
    }
    Ok(price)
}

/// The payment check accepts every transaction whose third output pays the
/// owner script at least the required amount, whatever other outputs it has,
/// and refuses every other one.
pub proof fn lemma_payment_complete(outputs: Seq<TxOutput>, owner: Seq<u8>, script: Option<Vec<u8>>, required: u64)
    requires
        script is Some,
        script->0@ == owner,
    ensures
        (outputs.len() >= 3 && outputs[2].script_pubkey@ == owner && outputs[2].value >= required)
            <==> payment_outcome(outputs, script, required) == Ok::<(), DomainError>(()),
        outputs.len() >= 3 ==> payment_outcome(outputs, script, required)
            != Err::<(), DomainError>(DomainError::MissingPaymentOutput),
{
}

/// Adding outputs after the third one changes nothing in the payment check.
pub proof fn lemma_payment_ignores_later_outputs(
    outputs: Seq<TxOutput>,
    extra: Seq<TxOutput>,
    script: Option<Vec<u8>>,
    required: u64,
)
    requires
        outputs.len() >= 3,
    ensures
        payment_outcome(outputs + extra, script, required) == payment_outcome(outputs, script, required),
{
    assert((outputs + extra)[2] == outputs[2]);
}

/// A mint of a free name of at least three characters, whose third output pays
/// the owner script at least the name's price (90909 satoshis for three
/// characters, 45455 for four, 9091 for more), succeeds and returns that price.
pub proof fn lemma_mint_complete(
    name: Seq<char>,
    outputs: Seq<TxOutput>,
    owner_script: Option<Vec<u8>>,
)
    requires
        name.len() >= 3,
        outputs.len() >= 3,
        owner_script is Some,
        outputs[2].script_pubkey@ == owner_script->0@,
        name.len() == 3 ==> outputs[2].value >= 90909,
        name.len() == 4 ==> outputs[2].value >= 45455,
        name.len() >= 5 ==> outputs[2].value >= 9091,
    ensures
        name.len() == 3 ==> mint_outcome(name, outputs, owner_script, false) == Ok::<u64, DomainError>(90909),
        name.len() == 4 ==> mint_outcome(name, outputs, owner_script, false) == Ok::<u64, DomainError>(45455),
        name.len() >= 5 ==> mint_outcome(name, outputs, owner_script, false) == Ok::<u64, DomainError>(9091),
        mint_outcome(name, outputs, owner_script, true) == Err::<u64, DomainError>(DomainError::NameAlreadyMinted),
{
}

/// A mint that succeeds has been paid its price to the owner script.
pub proof fn lemma_minted_names_are_paid(
    name: Seq<char>,
    outputs: Seq<TxOutput>,
    owner_script: Option<Vec<u8>>,
    already_minted: bool,
)
    requires
        mint_outcome(name, outputs, owner_script, already_minted) is Ok,
    ensures
        name.len() >= 3,
        !already_minted,
        outputs.len() > 2,
        owner_script is Some,
        outputs[2].script_pubkey@ == owner_script->0@,
        outputs[2].value >= price_of_length(name.len())->Ok_0,
{
}

} // verus!
