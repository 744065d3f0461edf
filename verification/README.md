# bn254_gadgets

Circuit gadgets for the BN254 base field `Fq` and its extensions
`Fq2 = Fq[u]/(u^2 + 1)` and `Fq6 = Fq2[v]/(v^3 - (9 + u))`, verified with Verus.

A circuit is a list of word-level gates over numbered wires. Each gate
computes one base-field operation (a sum, a Montgomery product, an inverse, a
comparison with a constant, and so on): it reads bundles of 254 wires holding
base-field elements (little-endian bits) and writes a fresh bundle, so a circuit only grows and the value of a bundle never changes once it
exists. Every gadget states, for every extension of the circuit it returns and
every assignment of the input wires, the field value its output bundles hold,
as a function of the values on its input bundles, and that the integer on each
bundle it writes is canonical (below `p`), so those wires carry exactly the bits
of that value. Multiplicative gadgets work in Montgomery form with `R = 2^254`.

Layout of `src/`:

- `field.rs`: arithmetic modulo `p`, Montgomery products and inverses.
- `bits.rs`: bits and bytes as integers.
- `value.rs`: concrete field values as 64-bit limbs, and the calls into
  `ark_bn254` that compute on them.
- `circuit.rs`: circuits, gates, evaluation and its semantics.
- `fq.rs`, `fq2.rs`, `fq6.rs`: the gadgets.
- `tower.rs`: the extension arithmetic and the identities behind the gadgets'
  formulas (Karatsuba, Toom-Cook interpolation, Chung-Hasan squaring, sparse
  products, norms and inverses).
- `prime.rs`: Lucas's primality test, proved, and trial division.
- `certificate.rs`: the certificates, with all their numbers, that the
  modulus `p` is prime with 3 generating its nonzero residues.
- `laws.rs`: laws of the arithmetic (Montgomery forms represent products and
  inverses, every nonzero element of `Fq` and `Fq2` has an inverse, Fermat's
  little theorem, Euler's criterion behind the non-residue test, the square
  root, halving undoes doubling, and so on).

`app/` holds what needs randomness or closures: random elements, and wire
assignments given as functions around the checked bits of `Fq::get_wire_bits`.
