# recipe_ops

A verified library for Recipe's structured operations: finite composition
recipes over the primitive kernel families, their static expansion, the
source-qualified registry and the manifest of recipes that still fail closed,
identity-namespace and workspace reservations, and the graph fragments the
concrete materializers emit.

- `src/` holds the library; every function is verified by Verus against its
  contract, and no item is trusted.
- `tests/` runs the library on concrete values.
- `app/` holds the floating-point conveniences that stay outside the verified
  library.

The registry lists the source-qualified rows that the library's own tables
name: the rows its loss and metric, training, and tree and boosting tables
own, and the descriptive rows that still fail closed. It is a part of the
full operation surface.
