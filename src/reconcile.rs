//! Assembling the record of a confirmed payment from the node's views of it:
//! the sender's wallet view, the receiver's wallet view, the raw outputs and
//! the height of the confirming block. Amounts are signed base units.

use crate::text::{coin_amount_text, coin_text, decimal_digits, decimal_text, magnitude};
use vstd::prelude::*;

verus! {

/// The address, on the regtest network, that a locking script pays to, if it
/// has one.
pub uninterp spec fn regtest_address_of(script: Seq<u8>) -> Option<Seq<char>>;

pub open spec fn opt_text(o: Option<String>) -> Option<Seq<char>> {
    match o {
        Some(s) => Some(s@),
        None => None,
    }
}

/// Relies on bitcoin's `Address::from_script` with the regtest network, and on
/// `Address`'s `Display` to write the result out: the address that the script
/// pays to, a function of the script bytes alone, and none where the script
/// has no address form.
#[verifier::external_body]
fn script_address(script: &Vec<u8>) -> (r: Option<String>)
    ensures
        opt_text(r) == regtest_address_of(script@),
{
    match bitcoin::Address::from_script(
        bitcoin::Script::from_bytes(script.as_slice()),
        bitcoin::Network::Regtest,
    ) {
        Ok(a) => Some(a.to_string()),
        Err(_) => None,
    }
}

/// An output of the raw transaction: its locking script and its value.
#[derive(Debug)]
pub struct RawOutput {
    pub script: Vec<u8>,
    pub value: u64,
}

/// An output with the address that it pays to, where it has one.
#[derive(Debug)]
pub struct DecodedOutput {
    pub address: Option<String>,
    pub value: u64,
}

impl View for DecodedOutput {
    type V = (Option<Seq<char>>, u64);

    open spec fn view(&self) -> (Option<Seq<char>>, u64) {
        (opt_text(self.address), self.value)
    }
}

pub open spec fn decoded_view(outs: Seq<DecodedOutput>) -> Seq<(Option<Seq<char>>, u64)> {
    outs.map_values(|o: DecodedOutput| o@)
}

pub open spec fn raw_view(outs: Seq<RawOutput>) -> Seq<(Option<Seq<char>>, u64)> {
    outs.map_values(|o: RawOutput| (regtest_address_of(o.script@), o.value))
}

/// The sum of signed amounts.
pub open spec fn sum_amounts(s: Seq<i64>) -> int
    decreases s.len(),
{
    if s.len() == 0 {
        0
    } else {
        sum_amounts(s.drop_last()) + s.last()
    }
}

/// An output pays to an address other than the receiver's.
pub open spec fn is_change(o: (Option<Seq<char>>, u64), receiver: Seq<char>) -> bool {
    match o.0 {
        Some(a) => a != receiver,
        None => false,
    }
}

/// The position of the last output that pays to an address other than the
/// receiver's.
pub open spec fn last_change(outs: Seq<(Option<Seq<char>>, u64)>, receiver: Seq<char>) -> Option<
    int,
>
    decreases outs.len(),
{
    if outs.len() == 0 {
        None
    } else if is_change(outs.last(), receiver) {
        Some(outs.len() - 1)
    } else {
        last_change(outs.drop_last(), receiver)
    }
}

/// Why a record could not be assembled.
#[derive(Clone, Copy, Debug, PartialEq, Eq, Structural)]
pub enum ReconcileError {
    /// The sender's view of the transaction reports no fee.
    NoFee,
    /// No output pays to an address other than the receiver's.
    NoChangeOutput,
}

/// The record of one confirmed payment.
#[derive(Debug)]
pub struct TransactionRecord {
    pub txid: String,
    pub sender_input_address: String,
    /// What left the sender's wallet, as the magnitude of its view's total.
    pub sender_input_amount: i128,
    pub receiver_output_address: String,
    /// The total of the receiver's view.
    pub receiver_output_amount: i128,
    pub change_address: String,
    pub change_amount: u64,
    /// The fee as the sender's view reports it.
    pub fee: i64,
    pub block_height: u64,
    pub block_hash: String,
}

pub ghost struct RecordView {
    pub txid: Seq<char>,
    pub sender_input_address: Seq<char>,
    pub sender_input_amount: int,
    pub receiver_output_address: Seq<char>,
    pub receiver_output_amount: int,
    pub change_address: Seq<char>,
    pub change_amount: int,
    pub fee: int,
    pub block_height: int,
    pub block_hash: Seq<char>,
}

impl View for TransactionRecord {
    type V = RecordView;

    open spec fn view(&self) -> RecordView {
        RecordView {
            txid: self.txid@,
            sender_input_address: self.sender_input_address@,
            sender_input_amount: self.sender_input_amount as int,
            receiver_output_address: self.receiver_output_address@,
            receiver_output_amount: self.receiver_output_amount as int,
            change_address: self.change_address@,
            change_amount: self.change_amount as int,
            fee: self.fee as int,
            block_height: self.block_height as int,
            block_hash: self.block_hash@,
        }
    }
}

/// The record that the views give, or why there is none: a missing fee is
/// reported first, then a missing change output.
pub open spec fn reconciled(
    txid: Seq<char>,
    sender_input_address: Seq<char>,
    receiver_output_address: Seq<char>,
    block_hash: Seq<char>,
    sender_details: Seq<i64>,
    fee: Option<i64>,
    receiver_details: Seq<i64>,
    outs: Seq<(Option<Seq<char>>, u64)>,
    block_height: u64,
) -> Result<RecordView, ReconcileError> {
    match fee {
        None => Err(ReconcileError::NoFee),
        Some(f) => match last_change(outs, receiver_output_address) {
            None => Err(ReconcileError::NoChangeOutput),
            Some(k) => Ok(
                RecordView {
                    txid,
                    sender_input_address,
                    sender_input_amount: magnitude(sum_amounts(sender_details)) as int,
                    receiver_output_address,
                    receiver_output_amount: sum_amounts(receiver_details),
                    change_address: outs[k].0.unwrap(),
                    change_amount: outs[k].1 as int,
                    fee: f as int,
                    block_height: block_height as int,
                    block_hash,
                },
            ),
        },
    }
}

pub open spec fn result_view(r: Result<TransactionRecord, ReconcileError>) -> Result<
    RecordView,
    ReconcileError,
> {
    match r {
        Ok(rec) => Ok(rec@),
        Err(e) => Err(e),
    }
}

/// The total of signed amounts. It cannot overflow: each amount is below
/// 2^63 in magnitude and there are fewer than 2^64 of them.
pub fn total_amount(amounts: &Vec<i64>) -> (r: i128)
    ensures
        r == sum_amounts(amounts@),
        r > i128::MIN,
{
    let mut acc: i128 = 0;
    let mut i: usize = 0;
    while i < amounts.len()
        invariant
            i <= amounts@.len(),
            acc == sum_amounts(amounts@.take(i as int)),
            -(i as int) * 0x8000_0000_0000_0000 <= acc <= (i as int) * 0x8000_0000_0000_0000,
        decreases amounts@.len() - i,
    {
        assert(amounts@.take(i + 1).drop_last() =~= amounts@.take(i as int));
        acc = acc + amounts[i] as i128;
        i = i + 1;
    }
    assert(amounts@.take(i as int) =~= amounts@);
    assert(i <= usize::MAX);
    acc
}

/// The position of the last output that pays to an address other than the
/// receiver's, if any.
pub fn select_change(outs: &Vec<DecodedOutput>, receiver: &String) -> (r: Option<usize>)
    ensures
        match r {
            Some(k) => {
                &&& last_change(decoded_view(outs@), receiver@) == Some(k as int)
                &&& k < outs@.len()
                &&& is_change(outs@[k as int]@, receiver@)
            },
            None => last_change(decoded_view(outs@), receiver@) == None::<int>,
        },
{
    let ghost all = decoded_view(outs@);
    let mut i: usize = outs.len();
    assert(all.take(i as int) =~= all);
    while i > 0
        invariant
            i <= outs@.len(),
            all == decoded_view(outs@),
            last_change(all, receiver@) == last_change(all.take(i as int), receiver@),
        decreases i,
    {
        let o = &outs[i - 1];
        assert(all.take(i as int).last() == o@);
        let pays_elsewhere = match &o.address {
            Some(a) => *a != *receiver,
            None => false,
        };
        if pays_elsewhere {
            return Some(i - 1);
        }
        assert(all.take(i as int).drop_last() =~= all.take(i - 1));
        i = i - 1;
    }
    assert(all.take(0) =~= Seq::<(Option<Seq<char>>, u64)>::empty());
    None
}

/// Assembles the record from the views, the outputs given with their decoded
/// addresses.
pub fn reconcile_decoded(
    txid: String,
    sender_input_address: String,
    receiver_output_address: String,
    block_hash: String,
    sender_details: &Vec<i64>,
    fee: Option<i64>,
    receiver_details: &Vec<i64>,
    outs: &Vec<DecodedOutput>,
    block_height: u64,
) -> (r: Result<TransactionRecord, ReconcileError>)
    ensures
        result_view(r) == reconciled(
            txid@,
            sender_input_address@,
            receiver_output_address@,
            block_hash@,
            sender_details@,
            fee,
            receiver_details@,
            decoded_view(outs@),
            block_height,
        ),
{
    let (sender_input_amount, f) = match sender_side(sender_details, fee) {
        Ok(v) => v,
        Err(e) => {
            return Err(e);
        },
    };
    let receiver_output_amount = total_amount(receiver_details);
    let (change_address, change_amount) = match change_of_decoded(outs, &receiver_output_address) {
        Ok(c) => c,
        Err(e) => {
            return Err(e);
        },
    };
    Ok(
        assemble_record(
            txid,
            sender_input_address,
            receiver_output_address,
            block_hash,
            sender_input_amount,
            f,
            receiver_output_amount,
            change_address,
            change_amount,
            block_height,
        ),
    )
}

/// The sender's side, decided right after its view is fetched: the magnitude
/// of the view's total and the fee, or `NoFee` where the view reports none.
pub fn sender_side(details: &Vec<i64>, fee: Option<i64>) -> (r: Result<(i128, i64), ReconcileError>)
    ensures
        match fee {
            None => r == Err::<(i128, i64), ReconcileError>(ReconcileError::NoFee),
            Some(f) => {
                &&& r is Ok
                &&& r.unwrap().0 as int == magnitude(sum_amounts(details@))
                &&& r.unwrap().1 == f
            },
        },
{
    let f = match fee {
        Some(f) => f,
        None => {
            return Err(ReconcileError::NoFee);
        },
    };
    let sent = total_amount(details);
    let amount: i128 = if sent < 0 {
        -sent
    } else {
        sent
    };
    Ok((amount, f))
}

/// The change, from outputs given with their decoded addresses: the address
/// and value of the last output that pays elsewhere than to `receiver`, or
/// `NoChangeOutput` where there is none.
pub fn change_of_decoded(outs: &Vec<DecodedOutput>, receiver: &String) -> (r: Result<
    (String, u64),
    ReconcileError,
>)
    ensures
        match last_change(decoded_view(outs@), receiver@) {
            None => r == Err::<(String, u64), ReconcileError>(ReconcileError::NoChangeOutput),
            Some(k) => {
                &&& r is Ok
                &&& r.unwrap().0@ == decoded_view(outs@)[k].0.unwrap()
                &&& r.unwrap().1 == decoded_view(outs@)[k].1
            },
        },
{
    let k = match select_change(outs, receiver) {
        Some(k) => k,
        None => {
            return Err(ReconcileError::NoChangeOutput);
        },
    };
    let change = &outs[k];
    assert(decoded_view(outs@)[k as int] == change@);
    match &change.address {
        Some(a) => Ok((a.clone(), change.value)),
        None => Err(ReconcileError::NoChangeOutput),
    }
}

/// The change, decided right after the raw outputs are fetched: the address
/// and value of the last output that pays elsewhere than to `receiver`, or
/// `NoChangeOutput` where there is none.
pub fn change_of(outs: &Vec<RawOutput>, receiver: &String) -> (r: Result<
    (String, u64),
    ReconcileError,
>)
    ensures
        match last_change(raw_view(outs@), receiver@) {
            None => r == Err::<(String, u64), ReconcileError>(ReconcileError::NoChangeOutput),
            Some(k) => {
                &&& r is Ok
                &&& r.unwrap().0@ == raw_view(outs@)[k].0.unwrap()
                &&& r.unwrap().1 == raw_view(outs@)[k].1
            },
        },
{
    let decoded = decode_outputs(outs);
    change_of_decoded(&decoded, receiver)
}

/// The record, once every lookup has succeeded and every check has passed.
pub fn assemble_record(
    txid: String,
    sender_input_address: String,
    receiver_output_address: String,
    block_hash: String,
    sender_input_amount: i128,
    fee: i64,
    receiver_output_amount: i128,
    change_address: String,
    change_amount: u64,
    block_height: u64,
) -> (r: TransactionRecord)
    ensures
        r@ == (RecordView {
            txid: txid@,
            sender_input_address: sender_input_address@,
            sender_input_amount: sender_input_amount as int,
            receiver_output_address: receiver_output_address@,
            receiver_output_amount: receiver_output_amount as int,
            change_address: change_address@,
            change_amount: change_amount as int,
            fee: fee as int,
            block_height: block_height as int,
            block_hash: block_hash@,
        }),
{
    TransactionRecord {
        txid,
        sender_input_address,
        sender_input_amount,
        receiver_output_address,
        receiver_output_amount,
        change_address,
        change_amount,
        fee,
        block_height,
        block_hash,
    }
}

/// Decodes the address of each output.
pub fn decode_outputs(outs: &Vec<RawOutput>) -> (r: Vec<DecodedOutput>)
    ensures
        decoded_view(r@) == raw_view(outs@),
{
    let mut r: Vec<DecodedOutput> = Vec::new();
    let mut i: usize = 0;
    while i < outs.len()
        invariant
            i <= outs@.len(),
            r@.len() == i,
            decoded_view(r@) == raw_view(outs@.take(i as int)),
        decreases outs@.len() - i,
    {
        let address = script_address(&outs[i].script);
        let ghost before = r@;
        r.push(DecodedOutput { address, value: outs[i].value });
        assert(decoded_view(r@) =~= decoded_view(before).push(r@[i as int]@));
        assert(outs@.take(i + 1) =~= outs@.take(i as int).push(outs@[i as int]));
        assert(raw_view(outs@.take(i + 1)) =~= raw_view(outs@.take(i as int)).push(
            (regtest_address_of(outs@[i as int].script@), outs@[i as int].value),
        ));
        i = i + 1;
    }
    assert(outs@.take(i as int) =~= outs@);
    r
}

/// Assembles the record of a confirmed payment: the sender's input amount is
/// the magnitude of the total of its view's entries, the receiver's amount the
/// total of its view's entries, the change the last output that pays to an
/// address other than the receiver's, and the fee the one that the sender's
/// view reports. Fails without a fee, or without such an output.
pub fn reconcile(
    txid: String,
    sender_input_address: String,
    receiver_output_address: String,
    block_hash: String,
    sender_details: &Vec<i64>,
    fee: Option<i64>,
    receiver_details: &Vec<i64>,
    outs: &Vec<RawOutput>,
    block_height: u64,
) -> (r: Result<TransactionRecord, ReconcileError>)
    ensures
        result_view(r) == reconciled(
            txid@,
            sender_input_address@,
            receiver_output_address@,
            block_hash@,
            sender_details@,
            fee,
            receiver_details@,
            raw_view(outs@),
            block_height,
        ),
{
    let decoded = decode_outputs(outs);
    reconcile_decoded(
        txid,
        sender_input_address,
        receiver_output_address,
        block_hash,
        sender_details,
        fee,
        receiver_details,
        &decoded,
        block_height,
    )
}

/// What left the sender is what the receiver got, the change and the fee
/// together.
pub open spec fn is_balanced(r: RecordView) -> bool {
    r.sender_input_amount == r.receiver_output_amount + r.change_amount + r.fee
}

proof fn lemma_no_change_found(outs: Seq<(Option<Seq<char>>, u64)>, receiver: Seq<char>)
    requires
        forall|i: int| 0 <= i < outs.len() ==> !is_change(#[trigger] outs[i], receiver),
    ensures
        last_change(outs, receiver) == None::<int>,
    decreases outs.len(),
{
    if outs.len() > 0 {
        assert(!is_change(outs[outs.len() - 1], receiver));
        lemma_no_change_found(outs.drop_last(), receiver);
    }
}

/// Where the sender's view reports a fee but every output either pays to the
/// receiver or has no address, no record is made: the failure says that no
/// change output was found.
pub proof fn lemma_no_change_output_fails(
    txid: Seq<char>,
    sender_input_address: Seq<char>,
    receiver_output_address: Seq<char>,
    block_hash: Seq<char>,
    sender_details: Seq<i64>,
    fee: i64,
    receiver_details: Seq<i64>,
    outs: Seq<(Option<Seq<char>>, u64)>,
    block_height: u64,
)
    requires
        forall|i: int|
            0 <= i < outs.len() ==> !is_change(#[trigger] outs[i], receiver_output_address),
    ensures
        reconciled(
            txid,
            sender_input_address,
            receiver_output_address,
            block_hash,
            sender_details,
            Some(fee),
            receiver_details,
            outs,
            block_height,
        ) == Err::<RecordView, ReconcileError>(ReconcileError::NoChangeOutput),
{
    lemma_no_change_found(outs, receiver_output_address);
}

/// For a payment whose inputs total `input`, of which `output` goes to the
/// receiver, `change` back to the sender and `fee` to the miner, where the
/// sender's view totals `-input`, the receiver's view totals `output`, the
/// last output that pays elsewhere than to the receiver carries `change` and
/// the fee field reports `fee`: the record is made, and it is balanced.
pub proof fn lemma_record_balanced(
    txid: Seq<char>,
    sender_input_address: Seq<char>,
    receiver_output_address: Seq<char>,
    block_hash: Seq<char>,
    sender_details: Seq<i64>,
    fee: i64,
    receiver_details: Seq<i64>,
    outs: Seq<(Option<Seq<char>>, u64)>,
    block_height: u64,
    input: int,
    output: int,
    change: int,
)
    requires
        input == output + change + fee,
        input >= 0,
        sum_amounts(sender_details) == -input,
        sum_amounts(receiver_details) == output,
        last_change(outs, receiver_output_address) is Some,
        outs[last_change(outs, receiver_output_address).unwrap()].1 == change,
    ensures
        reconciled(
            txid,
            sender_input_address,
            receiver_output_address,
            block_hash,
            sender_details,
            Some(fee),
            receiver_details,
            outs,
            block_height,
        ) is Ok,
        is_balanced(
            reconciled(
                txid,
                sender_input_address,
                receiver_output_address,
                block_hash,
                sender_details,
                Some(fee),
                receiver_details,
                outs,
                block_height,
            ).unwrap(),
        ),
{
}

/// The ten lines of the report, in order: txid, sender input address, sender
/// input amount, receiver output address, receiver output amount, change
/// address, change amount, fee, confirming block height, confirming block hash.
pub open spec fn report_lines(r: RecordView) -> Seq<Seq<char>> {
    seq![
        r.txid,
        r.sender_input_address,
        coin_text(r.sender_input_amount),
        r.receiver_output_address,
        coin_text(r.receiver_output_amount),
        r.change_address,
        coin_text(r.change_amount),
        coin_text(r.fee),
        decimal_digits(r.block_height as nat),
        r.block_hash,
    ]
}

impl TransactionRecord {
    /// The lines of the report file; amounts are written in coins.
    pub fn to_lines(&self) -> (r: Vec<String>)
        ensures
            r@.map_values(|l: String| l@) == report_lines(self@),
    {
        let mut lines: Vec<String> = Vec::new();
        lines.push(self.txid.clone());
        lines.push(self.sender_input_address.clone());
        lines.push(coin_amount_text(self.sender_input_amount));
        lines.push(self.receiver_output_address.clone());
        lines.push(coin_amount_text(self.receiver_output_amount));
        lines.push(self.change_address.clone());
        lines.push(coin_amount_text(self.change_amount as i128));
        lines.push(coin_amount_text(self.fee as i128));
        lines.push(decimal_text(self.block_height));
        lines.push(self.block_hash.clone());
        assert(lines@.map_values(|l: String| l@) =~= report_lines(self@));
        lines
    }
}

/// Where the sender's view reports a fee and some output pays elsewhere than
/// to the receiver, the record is made, and its report opens with the
/// transaction id and gives the confirming block's height, in decimal, on its
/// ninth line.
pub proof fn lemma_report_names_txid_and_height(
    txid: Seq<char>,
    sender_input_address: Seq<char>,
    receiver_output_address: Seq<char>,
    block_hash: Seq<char>,
    sender_details: Seq<i64>,
    fee: i64,
    receiver_details: Seq<i64>,
    outs: Seq<(Option<Seq<char>>, u64)>,
    block_height: u64,
)
    requires
        last_change(outs, receiver_output_address) is Some,
    ensures
        reconciled(
            txid,
            sender_input_address,
            receiver_output_address,
            block_hash,
            sender_details,
            Some(fee),
            receiver_details,
            outs,
            block_height,
        ) is Ok,
        report_lines(
            reconciled(
                txid,
                sender_input_address,
                receiver_output_address,
                block_hash,
                sender_details,
                Some(fee),
                receiver_details,
                outs,
                block_height,
            ).unwrap(),
        ).len() == 10,
        report_lines(
            reconciled(
                txid,
                sender_input_address,
                receiver_output_address,
                block_hash,
                sender_details,
                Some(fee),
                receiver_details,
                outs,
                block_height,
            ).unwrap(),
        )[0] == txid,
        report_lines(
            reconciled(
                txid,
                sender_input_address,
                receiver_output_address,
                block_hash,
                sender_details,
                Some(fee),
                receiver_details,
                outs,
                block_height,
            ).unwrap(),
        )[8] == decimal_digits(block_height as nat),
{
}

} // verus!
