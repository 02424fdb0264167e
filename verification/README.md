# admin_views

The logic behind the administration pages of an identity management server: lists of persons and
groups with search, sorting and pages, the pages of persons, groups, OAuth2 clients and settings,
the changes that these pages post, and the page of applications. The library is written in Verus:
what every function returns is stated in its contract and proved. What is trusted are the contracts
of seven small wrappers around calls of `time`, `url`, `uuid` and the standard library, each of which
says in its doc comment what it claims of the call.

The library talks to no server. A page is a function from what the server answered to what the
browser is shown, and a change is a value that holds the write to make and how its success and its
failure are answered. Where a change takes several calls, it is a state machine whose caller makes
the next call and hands the answer back.

- `src/text.rs`, `src/form.rs`, `src/moment.rs`, `src/ident.rs`, `src/link.rs`: texts, query
  strings, points in time, identifiers and links.
- `src/attribute.rs`, `src/entry.rs`, `src/request.rs`, `src/reply.rs`: entries of the directory,
  requests to the server and answers to the browser.
- `src/pagination.rs`, `src/listing.rs`: lists and their pages.
- `src/persons.rs`, `src/groups.rs`, `src/settings.rs`, `src/oauth2.rs`, `src/apps.rs`: the views.
- `src/routes.rs`: which path leads to which page or change.
- `app/`: axum routers over the library, for a site that supplies the server and the templates.

Public proof functions named `law_...` state what holds of the library as a whole.
