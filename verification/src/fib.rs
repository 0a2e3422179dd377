//! Iterative generation of the Fibonacci sequence, with a contract that
//! pins every term to the mathematical definition.

use vstd::prelude::*;

verus! {

/// The Fibonacci numbers: F(0) = 0, F(1) = 1, F(i) = F(i-1) + F(i-2).
pub open spec fn fib(i: nat) -> nat
    decreases i,
{
    if i == 0 {
        0
    } else if i == 1 {
        1
    } else {
        fib((i - 1) as nat) + fib((i - 2) as nat)
    }
}

/// The first `n` Fibonacci numbers, in order.
pub open spec fn fib_seq(n: nat) -> Seq<nat> {
    Seq::new(n, |i: int| fib(i as nat))
}

/// The Fibonacci numbers never decrease as the index grows.
pub proof fn lemma_fib_monotone(i: nat, j: nat)
    requires
        i <= j,
    ensures
        fib(i) <= fib(j),
    decreases j,
{
    if i < j {
        lemma_fib_monotone(i, (j - 1) as nat);
        assert(fib(j) >= fib((j - 1) as nat));
    }
}

/// The largest Fibonacci number representable in an unsigned 64-bit word
/// is F(93).
pub proof fn lemma_fib_93()
    ensures
        fib(93) == 12200160415121876738,
{
    assert(fib(0) == 0);
    assert(fib(1) == 1);
    assert(fib(2) == 1);
    assert(fib(3) == 2);
    assert(fib(4) == 3);
    assert(fib(5) == 5);
    assert(fib(6) == 8);
    assert(fib(7) == 13);
    assert(fib(8) == 21);
    assert(fib(9) == 34);
    assert(fib(10) == 55);
    assert(fib(11) == 89);
    assert(fib(12) == 144);
    assert(fib(13) == 233);
    assert(fib(14) == 377);
    assert(fib(15) == 610);
    assert(fib(16) == 987);
    assert(fib(17) == 1597);
    assert(fib(18) == 2584);
    assert(fib(19) == 4181);
    assert(fib(20) == 6765);
    assert(fib(21) == 10946);
    assert(fib(22) == 17711);
    assert(fib(23) == 28657);
    assert(fib(24) == 46368);
    assert(fib(25) == 75025);
    assert(fib(26) == 121393);
    assert(fib(27) == 196418);
    assert(fib(28) == 317811);
    assert(fib(29) == 514229);
    assert(fib(30) == 832040);
    assert(fib(31) == 1346269);
    assert(fib(32) == 2178309);
    assert(fib(33) == 3524578);
    assert(fib(34) == 5702887);
    assert(fib(35) == 9227465);
    assert(fib(36) == 14930352);
    assert(fib(37) == 24157817);
    assert(fib(38) == 39088169);
    assert(fib(39) == 63245986);
    assert(fib(40) == 102334155);
    assert(fib(41) == 165580141);
    assert(fib(42) == 267914296);
    assert(fib(43) == 433494437);
    assert(fib(44) == 701408733);
    assert(fib(45) == 1134903170);
    assert(fib(46) == 1836311903);
    assert(fib(47) == 2971215073);
    assert(fib(48) == 4807526976);
    assert(fib(49) == 7778742049);
    assert(fib(50) == 12586269025);
    assert(fib(51) == 20365011074);
    assert(fib(52) == 32951280099);
    assert(fib(53) == 53316291173);
    assert(fib(54) == 86267571272);
    assert(fib(55) == 139583862445);
    assert(fib(56) == 225851433717);
    assert(fib(57) == 365435296162);
    assert(fib(58) == 591286729879);
    assert(fib(59) == 956722026041);
    assert(fib(60) == 1548008755920);
    assert(fib(61) == 2504730781961);
    assert(fib(62) == 4052739537881);
    assert(fib(63) == 6557470319842);
    assert(fib(64) == 10610209857723);
    assert(fib(65) == 17167680177565);
    assert(fib(66) == 27777890035288);
    assert(fib(67) == 44945570212853);
    assert(fib(68) == 72723460248141);
    assert(fib(69) == 117669030460994);
    assert(fib(70) == 190392490709135);
    assert(fib(71) == 308061521170129);
    assert(fib(72) == 498454011879264);
    assert(fib(73) == 806515533049393);
    assert(fib(74) == 1304969544928657);
    assert(fib(75) == 2111485077978050);
    assert(fib(76) == 3416454622906707);
    assert(fib(77) == 5527939700884757);
    assert(fib(78) == 8944394323791464);
    assert(fib(79) == 14472334024676221);
    assert(fib(80) == 23416728348467685);
    assert(fib(81) == 37889062373143906);
    assert(fib(82) == 61305790721611591);
    assert(fib(83) == 99194853094755497);
    assert(fib(84) == 160500643816367088);
    assert(fib(85) == 259695496911122585);
    assert(fib(86) == 420196140727489673);
    assert(fib(87) == 679891637638612258);
    assert(fib(88) == 1100087778366101931);
    assert(fib(89) == 1779979416004714189);
    assert(fib(90) == 2880067194370816120);
    assert(fib(91) == 4660046610375530309);
    assert(fib(92) == 7540113804746346429);
    assert(fib(93) == 12200160415121876738);
}

/// Every Fibonacci number up to index 93 fits in an unsigned 64-bit word.
pub proof fn lemma_fib_u64_bound(i: nat)
    requires
        i <= 93,
    ensures
        fib(i) <= u64::MAX,
{
    lemma_fib_monotone(i, 93);
    lemma_fib_93();
}

/// Returns the first `n` terms of the Fibonacci sequence.
///
/// Overflow policy: counts for which a term would exceed `u64::MAX`
/// (that is, counts above 94) are excluded by precondition, so every
/// term is computed exactly and the function never wraps and never
/// panics.
pub fn fibonacci(n: usize) -> (r: Vec<u64>)
    requires
        n <= 94,
    ensures
        r@.len() == n,
        forall|i: int| 0 <= i < n ==> r@[i] == fib(i as nat),
{
    let mut sequence: Vec<u64> = Vec::new();
    if n == 0 {
        return sequence;
    }
    sequence.push(0);
    if n == 1 {
        return sequence;
    }
    sequence.push(1);
    let mut i: usize = 2;
    while i < n
        invariant
            2 <= i <= n,
            n <= 94,
            sequence@.len() == i,
            forall|k: int| 0 <= k < i ==> sequence@[k] == fib(k as nat),
        decreases n - i,
    {
        proof {
            lemma_fib_u64_bound(i as nat);
        }
        let next: u64 = sequence[i - 1] + sequence[i - 2];
        sequence.push(next);
        i = i + 1;
    }
    sequence
}

/// For every count of at least 3, the sequence has exactly that many
/// terms and each term from index 2 on is the sum of the two terms
/// before it.
pub proof fn lemma_fib_seq_recurrence(n: nat)
    requires
        3 <= n,
    ensures
        fib_seq(n).len() == n,
        forall|i: int| 2 <= i < n ==> #[trigger] fib_seq(n)[i] == fib_seq(n)[i - 1] + fib_seq(n)[i - 2],
{
    assert forall|i: int| 2 <= i < n implies #[trigger] fib_seq(n)[i] == fib_seq(n)[i - 1] + fib_seq(n)[i - 2] by {
        assert(fib(i as nat) == fib((i - 1) as nat) + fib((i - 2) as nat));
    }
}

/// Extending the count extends the sequence: the first `n` terms are a
/// prefix of the first `n + 1` terms.
pub proof fn lemma_fib_seq_prefix(n: nat)
    ensures
        fib_seq(n).is_prefix_of(fib_seq(n + 1)),
{
    assert(fib_seq(n) =~= fib_seq(n + 1).take(n as int));
}

} // verus!
