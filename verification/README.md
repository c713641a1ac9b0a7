# oxidoc

The rendering and site logic of Oxidoc, a documentation site generator, written in
Verus: every function in `src/` carries a contract (`requires` / `ensures`) that Verus
proves, stated over the characters of the strings it produces.

## Layout

- `src/text.rs`, `src/utils.rs`: character-sequence building blocks; HTML/XML escaping,
  heading anchors, highlighted-line handling for code blocks.
- `src/document.rs`: plain text, table of contents, title, description and parse
  errors of a parsed page (as a tree of `DocNode`s), and its searchable text.
- `src/attributes.rs`, `src/renderer.rs`: a parsed page rendered to HTML (as a tree of
  `RenderNode`s), its components included: custom web components, the static
  renderings (callout, cards, steps, badge, tag, tooltip, themed image, head block),
  the islands hydrated in the browser (tabs, accordion, code block, unknown names)
  with their JSON properties, and the debug outline around them; `src/landing.rs`:
  the landing-page components (hero, features, sections, testimonials, embeds, calls
  to action, banners).
- `src/template*.rs`, `src/template/`, `src/toc.rs`: the page and landing page
  documents (Open Graph, JSON-LD, canonical URL, head blocks, scripts) and their parts
  (assets, analytics, footer, meta bar, sidebar, header navigation, `<meta>`
  overrides, 404 page, TOC).
- `src/theme.rs`: themes and their CSS variables.
- `src/search_provider.rs`, `src/search_index.rs`, `src/term_stats.rs`: search
  providers, the documents of the search index with their snippets, and the term
  counts of tokenized documents.
- `src/versioning.rs`, `src/outputs.rs`, `src/page_extract.rs`, `src/git_meta.rs`:
  versions, sitemap/robots/redirect files, previous/next links, last-commit metadata.
- `src/openapi/`: API reference pages (OpenAPI documents parsed from JSON or YAML into
  a model and their endpoints extracted, grouping by tag, slugs, index and endpoint HTML, playground properties,
  the pages of the API section).
- `src/auth.rs`, `src/codegen.rs`, `src/request.rs`, `src/playground*.rs`,
  `src/response.rs`, `src/styles.rs`, `src/sri.rs`: the API Playground's requests and
  code snippets, and Subresource Integrity hashes.
- `app/`: the unverified glue: reading directories and files, writing files, running
  `git`, and the floating-point BM25 scores of the search index.
- `tests/`: tests of the library on concrete values.
