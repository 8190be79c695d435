# hwiki

The rules of H-Wiki, a Holochain application in which groups keep wiki-like
repositories of pages. Each wiki starts with initial administrators, who can
grant the `administrator` role or other roles (such as `Editor`) to any other
agent; only editors and administrators may change content.

- `src/` is the library, verified with Verus: the validation of roles and role
  assignments (`role`, `assignment`, `validation`, `chain`), of pages and
  sections (`page`, `section`, `wiki`), the entry type definitions
  (`definition`, `file`, `user`), and the laws that tie them together (`laws`).
- `app/` holds the zomes: the calls to the Holochain host, to
  `holochain_anchors` and `holochain_roles`, and the JSON forms of the entries.
- `tests/` runs the library on concrete values.
