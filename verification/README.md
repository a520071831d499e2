# blog_services

A small event-driven blog backend. Five services talk over HTTP through an
event bus:

- **posts** stores posts and announces each new one;
- **comments** stores comments per post and announces each new one;
- **moderation** rejects comments that mention "orange" and approves the rest;
- **event bus** keeps every event in order and forwards the whole log to the
  services;
- **query** folds the events into posts with their comments.

`src/` holds the verified logic of each service (Verus); `app/` holds the
HTTP servers, JSON handling and logging around it; the program there runs
the service named by its first argument: `event-bus`, `posts`, `comments`,
`moderation` or `query`.
